//! REST routes for kinds and for single resources.
//!
//! A route is a value built for one call: an API prefix, an optional
//! namespace, the plural of a kind, for a resource route the name of the
//! resource, and optional query pairs. The dynamic segments (namespace, kind,
//! resource name, subresource) are percent-encoded when the path is formed,
//! so none of them can add a segment or start a query.

use crate::errors::Error;
use crate::location::{pairs_view, resolve, resolved, text_outcome};
use crate::text::{encode_segment, encoded_segment};
use vstd::prelude::*;

verus! {

/// The route of a kind: where its resources are listed and created.
pub struct KindRoute<'a> {
    api: &'a str,
    namespace: Option<&'a str>,
    kind: &'a str,
    query: Option<Vec<(String, String)>>,
}

/// The route of one resource: where it is read, replaced and deleted.
pub struct ResourceRoute<'a> {
    api: &'a str,
    namespace: Option<&'a str>,
    kind: &'a str,
    resource: &'a str,
    subresource: Option<&'a str>,
    query: Option<Vec<(String, String)>>,
}

/// The mathematical content of a [`KindRoute`].
pub struct KindRouteView {
    pub api: Seq<char>,
    pub namespace: Option<Seq<char>>,
    pub kind: Seq<char>,
    pub query: Option<Seq<(Seq<char>, Seq<char>)>>,
}

/// The mathematical content of a [`ResourceRoute`].
pub struct ResourceRouteView {
    pub api: Seq<char>,
    pub namespace: Option<Seq<char>>,
    pub kind: Seq<char>,
    pub resource: Seq<char>,
    pub subresource: Option<Seq<char>>,
    pub query: Option<Seq<(Seq<char>, Seq<char>)>>,
}

/// The path of a kind below an API prefix:
/// `{api}/namespaces/{namespace}/{kind}` where there is a namespace, else
/// `{api}/{kind}`, with namespace and kind percent-encoded.
pub open spec fn kind_path(api: Seq<char>, namespace: Option<Seq<char>>, kind: Seq<char>) -> Seq<
    char,
> {
    match namespace {
        Some(ns) => api + "/namespaces/"@ + encoded_segment(ns) + "/"@ + encoded_segment(kind),
        None => api + "/"@ + encoded_segment(kind),
    }
}

/// The path of a resource: the path of its kind, `/`, and the
/// percent-encoded name of the resource.
pub open spec fn resource_path(
    api: Seq<char>,
    namespace: Option<Seq<char>>,
    kind: Seq<char>,
    resource: Seq<char>,
) -> Seq<char> {
    kind_path(api, namespace, kind) + "/"@ + encoded_segment(resource)
}

impl KindRouteView {
    /// The path of the route.
    pub open spec fn path(self) -> Seq<char> {
        kind_path(self.api, self.namespace, self.kind)
    }
}

impl ResourceRouteView {
    /// The path of the route: that of the resource and, where the route
    /// names a subresource, `/` and the percent-encoded subresource.
    pub open spec fn path(self) -> Seq<char> {
        let base = resource_path(self.api, self.namespace, self.kind, self.resource);
        match self.subresource {
            Some(sub) => base + "/"@ + encoded_segment(sub),
            None => base,
        }
    }
}

/// The character views of an optional list of query pairs.
pub open spec fn query_view(query: Option<Vec<(String, String)>>) -> Option<
    Seq<(Seq<char>, Seq<char>)>,
> {
    match query {
        Some(pairs) => Some(pairs_view(pairs@)),
        None => None,
    }
}

impl<'a> View for KindRoute<'a> {
    type V = KindRouteView;

    closed spec fn view(&self) -> KindRouteView {
        KindRouteView {
            api: self.api@,
            namespace: match self.namespace {
                Some(ns) => Some(ns@),
                None => None,
            },
            kind: self.kind@,
            query: query_view(self.query),
        }
    }
}

impl<'a> View for ResourceRoute<'a> {
    type V = ResourceRouteView;

    closed spec fn view(&self) -> ResourceRouteView {
        ResourceRouteView {
            api: self.api@,
            namespace: match self.namespace {
                Some(ns) => Some(ns@),
                None => None,
            },
            kind: self.kind@,
            resource: self.resource@,
            subresource: match self.subresource {
                Some(sub) => Some(sub@),
                None => None,
            },
            query: query_view(self.query),
        }
    }
}

/// Forms the path of a kind.
fn form_kind_path(api: &str, namespace: Option<&str>, kind: &str) -> (path: String)
    ensures
        path@ == kind_path(
            api@,
            match namespace {
                Some(ns) => Some(ns@),
                None => None,
            },
            kind@,
        ),
{
    let mut path = String::from_str(api);
    match namespace {
        Some(ns) => {
            path.append("/namespaces/");
            path.append(encode_segment(ns).as_str());
            path.append("/");
        },
        None => {
            path.append("/");
        },
    }
    path.append(encode_segment(kind).as_str());
    path
}

impl<'a> KindRoute<'a> {
    /// The route of `kind` under the API prefix `api`, without a namespace
    /// and without a query.
    pub fn new(api: &'a str, kind: &'a str) -> (route: KindRoute<'a>)
        ensures
            route@ == (KindRouteView { api: api@, namespace: None, kind: kind@, query: None }),
    {
        KindRoute { api, kind, namespace: None, query: None }
    }

    /// Puts the route into a namespace.
    pub fn namespace(&mut self, namespace: &'a str) -> (route: &mut KindRoute<'a>)
        ensures
            route@ == (KindRouteView { namespace: Some(namespace@), ..old(self)@ }),
            final(self)@ == final(route)@,
    {
        self.namespace = Some(namespace);
        self
    }

    /// Gives the route these query pairs, in place of any it had.
    pub fn query(&mut self, query: Vec<(String, String)>) -> (route: &mut KindRoute<'a>)
        ensures
            route@ == (KindRouteView { query: Some(pairs_view(query@)), ..old(self)@ }),
            final(self)@ == final(route)@,
    {
        self.query = Some(query);
        self
    }

    /// The path of the route, before it is joined to a base URL.
    pub fn path(&self) -> (path: String)
        ensures
            path@ == self@.path(),
    {
        form_kind_path(self.api, self.namespace, self.kind)
    }

    /// The URL of the route under `base_url`: the path resolved against the
    /// base URL, with the query pairs appended where the route has a query.
    /// Fails with a URL error where base URL and path cannot be joined.
    pub fn build(&self, base_url: &str) -> (url: Result<String, Error>)
        ensures
            text_outcome(url, resolved(base_url@, self@.path(), self@.query)),
    {
        let path = self.path();
        resolve(base_url, path.as_str(), &self.query)
    }
}

impl<'a> ResourceRoute<'a> {
    /// The route of the resource `resource` of `kind` under the API prefix
    /// `api`, without a namespace, a subresource or a query.
    pub fn new(api: &'a str, kind: &'a str, resource: &'a str) -> (route: ResourceRoute<'a>)
        ensures
            route@ == (ResourceRouteView {
                api: api@,
                namespace: None,
                kind: kind@,
                resource: resource@,
                subresource: None,
                query: None,
            }),
    {
        ResourceRoute { api, kind, resource, namespace: None, subresource: None, query: None }
    }

    /// Puts the route into a namespace.
    pub fn namespace(&mut self, namespace: &'a str) -> (route: &mut ResourceRoute<'a>)
        ensures
            route@ == (ResourceRouteView { namespace: Some(namespace@), ..old(self)@ }),
            final(self)@ == final(route)@,
    {
        self.namespace = Some(namespace);
        self
    }

    /// Points the route at a subresource of the resource, such as `scale`.
    pub fn subresource(&mut self, subresource: &'a str) -> (route: &mut ResourceRoute<'a>)
        ensures
            route@ == (ResourceRouteView { subresource: Some(subresource@), ..old(self)@ }),
            final(self)@ == final(route)@,
    {
        self.subresource = Some(subresource);
        self
    }

    /// Gives the route these query pairs, in place of any it had.
    pub fn query(&mut self, query: Vec<(String, String)>) -> (route: &mut ResourceRoute<'a>)
        ensures
            route@ == (ResourceRouteView { query: Some(pairs_view(query@)), ..old(self)@ }),
            final(self)@ == final(route)@,
    {
        self.query = Some(query);
        self
    }

    /// The path of the route, before it is joined to a base URL.
    pub fn path(&self) -> (path: String)
        ensures
            path@ == self@.path(),
    {
        let mut path = form_kind_path(self.api, self.namespace, self.kind);
        path.append("/");
        path.append(encode_segment(self.resource).as_str());
        match self.subresource {
            Some(sub) => {
                path.append("/");
                path.append(encode_segment(sub).as_str());
            },
            None => {},
        }
        path
    }

    /// The URL of the route under `base_url`: the path resolved against the
    /// base URL, with the query pairs appended where the route has a query.
    /// Fails with a URL error where base URL and path cannot be joined.
    pub fn build(&self, base_url: &str) -> (url: Result<String, Error>)
        ensures
            text_outcome(url, resolved(base_url@, self@.path(), self@.query)),
    {
        let path = self.path();
        resolve(base_url, path.as_str(), &self.query)
    }
}

} // verus!
