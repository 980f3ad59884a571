//! The clients: routes, requests and what is made of the responses.
//!
//! [`Kubernetes`] binds a cluster and an optional namespace; for each typed
//! operation it forms the one request that the operation sends. The kind of
//! a resource type decides the API prefix and the plural of the route, and
//! whether the route has a namespace segment at all.
pub mod apply;
pub mod identity;
pub mod low_level;
pub mod resource_clients;
pub mod routes;

use crate::clients::apply::served;
use crate::clients::low_level::{
    body_result, planned, request_outcome, success, KubeLowLevel, Method, Request, RequestView,
    ResponseView,
};
use crate::clients::resource_clients::KubeClient;
use crate::clients::routes::{kind_path, resource_path, KindRoute, ResourceRoute};
use crate::errors::{Error, ErrorKind, ErrorView};
use crate::location::resolved;
use crate::resources::config_map::ConfigMap;
use crate::resources::deployment::{Scale, ScaleView};
use crate::resources::list_query::ListQuery;
use crate::resources::metadata::opt_string_view;
use crate::resources::secret::Secret;
use crate::resources::{
    effective_namespace, kind_api, kind_plural, namespaced, opt_view,
    resolve_namespace, Kind, Resource,
};
use crate::text::{encoded_segment, lemma_plain_segment_unchanged, plain_char, plain_segment};
use vstd::prelude::*;

verus! {

/// The path at which a resource of `kind` with the name `name` is served,
/// for a client whose namespace is `namespace`.
pub open spec fn typed_resource_path(
    kind: Kind,
    namespace: Option<Seq<char>>,
    name: Seq<char>,
) -> Seq<char> {
    resource_path(kind_api(kind), effective_namespace(kind, namespace), kind_plural(kind), name)
}

/// The path at which the resources of `kind` are listed and created, for a
/// client whose namespace is `namespace`.
pub open spec fn typed_kind_path(kind: Kind, namespace: Option<Seq<char>>) -> Seq<char> {
    kind_path(kind_api(kind), effective_namespace(kind, namespace), kind_plural(kind))
}

/// Whether a kind can be scaled. Deployments can.
pub open spec fn scalable(kind: Kind) -> bool {
    kind == Kind::Deployment
}

/// The message of the configuration error for a kind that cannot be scaled.
pub open spec fn not_scalable() -> Seq<char> {
    "resources of this kind cannot be scaled"@
}

/// The message of the configuration error for a scale without a namespace.
pub open spec fn no_namespace() -> Seq<char> {
    "a namespace is necessary to scale a resource"@
}

/// The request that scales a resource, and the body to send with it.
pub struct ScalePlan {
    pub request: Request,
    pub body: Scale,
}

/// The context that a failure to scale the resource `name` passes through:
/// `failed to scale <name>`.
pub open spec fn scaling(name: Seq<char>) -> Seq<char> {
    "failed to scale "@ + name
}

/// What planning a scale comes to: a configuration error, before any
/// request is formed, where the kind resolves to no namespace or cannot be
/// scaled; else a PUT to the `scale` subresource of the resource, with the
/// count, the name and the namespace as its body.
pub open spec fn scale_planned(
    base_url: Seq<char>,
    kind: Kind,
    namespace: Option<Seq<char>>,
    name: Seq<char>,
    count: u32,
) -> Result<(RequestView, ScaleView), ErrorView> {
    match effective_namespace(kind, namespace) {
        None => Err(ErrorView::bare(ErrorKind::Config, no_namespace()).within(scaling(name))),
        Some(ns) => if !scalable(kind) {
            Err(ErrorView::bare(ErrorKind::Config, not_scalable()).within(scaling(name)))
        } else {
            match resolved(
                base_url,
                typed_resource_path(kind, namespace, name) + "/"@ + encoded_segment("scale"@),
                None,
            ) {
                Err(e) => Err(e),
                Ok(url) => Ok(
                    (
                        RequestView { method: Method::Put, url },
                        ScaleView { replicas: count as nat, name: Some(name), namespace: Some(ns) },
                    ),
                ),
            }
        },
    }
}

/// The configuration error for a scale that cannot be planned.
fn refuse_scale(message: &str, name: &str) -> (e: Error)
    ensures
        e@ == ErrorView::bare(ErrorKind::Config, message@).within(scaling(name@)),
{
    let mut context = String::from_str("failed to scale ");
    context.append(name);
    Error::config(message).with_context(context.as_str())
}

/// The main client: a cluster and, optionally, the namespace to work in.
#[derive(Clone, Debug)]
pub struct Kubernetes {
    low_level: KubeLowLevel,
    namespace: Option<String>,
}

/// The mathematical content of a [`Kubernetes`] client.
pub struct KubernetesView {
    pub base_url: Seq<char>,
    pub namespace: Option<Seq<char>>,
}

impl View for Kubernetes {
    type V = KubernetesView;

    closed spec fn view(&self) -> KubernetesView {
        KubernetesView { base_url: self.low_level@, namespace: opt_string_view(self.namespace) }
    }
}

impl Kubernetes {
    /// The client of the cluster behind `low_level`, without a namespace of
    /// its own: each kind is routed to its default namespace.
    pub fn new(low_level: KubeLowLevel) -> (kube: Kubernetes)
        ensures
            kube@ == (KubernetesView { base_url: low_level@, namespace: None }),
    {
        Kubernetes { low_level, namespace: None }
    }

    /// The low-level client of the cluster.
    pub fn low_level(&self) -> (low_level: &KubeLowLevel)
        ensures
            low_level@ == self@.base_url,
    {
        &self.low_level
    }

    /// A client of the same cluster that works in `namespace`.
    pub fn namespace(&self, namespace: &str) -> (kube: Kubernetes)
        ensures
            kube@ == (KubernetesView { namespace: Some(namespace@), ..self@ }),
    {
        Kubernetes { low_level: self.low_level.copy(), namespace: Some(String::from_str(namespace)) }
    }

    /// A copy of this client.
    pub fn copy(&self) -> (kube: Kubernetes)
        ensures
            kube@ == self@,
    {
        Kubernetes {
            low_level: self.low_level.copy(),
            namespace: match &self.namespace {
                Some(ns) => Some(ns.clone()),
                None => None,
            },
        }
    }

    /// A client for the resources of the type `R`.
    pub fn resources<R: Resource>(&self) -> (client: KubeClient<R>)
        ensures
            client@ == self@,
    {
        KubeClient::new(self.copy())
    }

    /// A client for config maps.
    pub fn config_maps(&self) -> (client: KubeClient<ConfigMap>)
        ensures
            client@ == self@,
    {
        self.resources::<ConfigMap>()
    }

    /// A client for secrets.
    pub fn secrets(&self) -> (client: KubeClient<Secret>)
        ensures
            client@ == self@,
    {
        self.resources::<Secret>()
    }

    /// The namespace that requests for resources of the type `R` are routed
    /// to: none for a cluster-scoped kind, else the namespace of this client,
    /// and the default namespace of the kind where the client has none.
    pub fn get_ns<R: Resource>(&self) -> (ns: Option<&str>)
        ensures
            opt_view(ns) == effective_namespace(R::bound_kind(), self@.namespace),
    {
        let explicit: Option<&str> = match &self.namespace {
            Some(ns) => Some(ns.as_str()),
            None => None,
        };
        resolve_namespace(R::kind(), explicit)
    }

    /// The request that checks whether the resource `name` exists.
    pub fn exists_request<R: Resource>(&self, name: &str) -> (r: Result<Request, Error>)
        ensures
            request_outcome(
                r,
                planned(
                    Method::Get,
                    resolved(
                        self@.base_url,
                        typed_resource_path(R::bound_kind(), self@.namespace, name@),
                        None,
                    ),
                ),
            ),
    {
        let info = R::kind().info();
        let mut route = ResourceRoute::new(info.api, info.plural, name);
        if let Some(ns) = self.get_ns::<R>() {
            route.namespace(ns);
        }
        self.low_level.exists_request(&route)
    }

    /// The request that fetches the resource `name`.
    pub fn get_request<R: Resource>(&self, name: &str) -> (r: Result<Request, Error>)
        ensures
            request_outcome(
                r,
                planned(
                    Method::Get,
                    resolved(
                        self@.base_url,
                        typed_resource_path(R::bound_kind(), self@.namespace, name@),
                        None,
                    ),
                ),
            ),
    {
        let info = R::kind().info();
        let mut route = ResourceRoute::new(info.api, info.plural, name);
        if let Some(ns) = self.get_ns::<R>() {
            route.namespace(ns);
        }
        self.low_level.get_request(&route)
    }

    /// The request that lists the resources of the type `R`, with the
    /// options of `query` as its query pairs where a query is given.
    pub fn list_request<R: Resource>(&self, query: Option<&ListQuery>) -> (r: Result<
        Request,
        Error,
    >)
        ensures
            request_outcome(
                r,
                planned(
                    Method::Get,
                    resolved(
                        self@.base_url,
                        typed_kind_path(R::bound_kind(), self@.namespace),
                        match query {
                            Some(q) => Some(q@.pairs()),
                            None => None,
                        },
                    ),
                ),
            ),
    {
        let info = R::kind().info();
        let mut route = KindRoute::new(info.api, info.plural);
        if let Some(ns) = self.get_ns::<R>() {
            route.namespace(ns);
        }
        if let Some(query) = query {
            route.query(query.as_query_pairs());
        }
        self.low_level.list_request(&route)
    }

    /// The request that creates a resource of the type `R`. Its body is the
    /// full resource.
    pub fn create_request<R: Resource>(&self) -> (r: Result<Request, Error>)
        ensures
            request_outcome(
                r,
                planned(
                    Method::Post,
                    resolved(
                        self@.base_url,
                        typed_kind_path(R::bound_kind(), self@.namespace),
                        None,
                    ),
                ),
            ),
    {
        let info = R::kind().info();
        let mut route = KindRoute::new(info.api, info.plural);
        if let Some(ns) = self.get_ns::<R>() {
            route.namespace(ns);
        }
        self.low_level.apply_request(&route)
    }

    /// The request that deletes the resource `name`.
    pub fn delete_request<R: Resource>(&self, name: &str) -> (r: Result<Request, Error>)
        ensures
            request_outcome(
                r,
                planned(
                    Method::Delete,
                    resolved(
                        self@.base_url,
                        typed_resource_path(R::bound_kind(), self@.namespace, name@),
                        None,
                    ),
                ),
            ),
    {
        let info = R::kind().info();
        let mut route = ResourceRoute::new(info.api, info.plural, name);
        if let Some(ns) = self.get_ns::<R>() {
            route.namespace(ns);
        }
        self.low_level.delete_request(&route)
    }

    /// The request that scales the resource `name` to `count` replicas, and
    /// its body. Fails with a configuration error, before any request is
    /// formed, where the kind resolves to no namespace or cannot be scaled.
    pub fn scale_request<R: Resource>(&self, name: &str, count: u32) -> (r: Result<
        ScalePlan,
        Error,
    >)
        ensures
            match r {
                Ok(plan) => scale_planned(
                    self@.base_url,
                    R::bound_kind(),
                    self@.namespace,
                    name@,
                    count,
                ) == Ok::<(RequestView, ScaleView), ErrorView>((plan.request@, plan.body@)),
                Err(e) => scale_planned(
                    self@.base_url,
                    R::bound_kind(),
                    self@.namespace,
                    name@,
                    count,
                ) == Err::<(RequestView, ScaleView), ErrorView>(e@),
            },
    {
        let kind = R::kind();
        let ns = match self.get_ns::<R>() {
            Some(ns) => ns,
            None => {
                return Err(refuse_scale("a namespace is necessary to scale a resource", name));
            },
        };
        match kind {
            Kind::Deployment => {},
            _ => {
                return Err(refuse_scale("resources of this kind cannot be scaled", name));
            },
        }
        let info = kind.info();
        let mut route = ResourceRoute::new(info.api, info.plural, name);
        route.namespace(ns);
        route.subresource("scale");
        match self.low_level.replace_request(&route) {
            Err(e) => Err(e),
            Ok(request) => Ok(ScalePlan { request, body: Scale::replicas(ns, name, count) }),
        }
    }
}


/// Every plural of the registry is made of unreserved characters, so it is
/// its own encoding, and so is the default namespace.
pub proof fn lemma_registry_segments_plain(kind: Kind)
    ensures
        plain_segment(kind_plural(kind)),
        encoded_segment(kind_plural(kind)) == kind_plural(kind),
        plain_segment("default"@),
        encoded_segment("default"@) == "default"@,
{
    reveal_strlit("daemonsets");
    reveal_strlit("deployments");
    reveal_strlit("configmaps");
    reveal_strlit("networkpolicies");
    reveal_strlit("nodes");
    reveal_strlit("pods");
    reveal_strlit("secrets");
    reveal_strlit("services");
    reveal_strlit("default");
    let plural = kind_plural(kind);
    assert forall|i: int| 0 <= i < plural.len() implies plain_char(#[trigger] plural[i]) by {}
    let namespace = "default"@;
    assert forall|i: int| 0 <= i < namespace.len() implies plain_char(#[trigger] namespace[i]) by {}
    lemma_plain_segment_unchanged(plural);
    lemma_plain_segment_unchanged(namespace);
}

/// For a namespaced kind, the resource `name` in the namespace `namespace`
/// is served at `{api}/namespaces/{namespace}/{plural}/{name}`, with
/// namespace and name percent-encoded; where both are made of unreserved
/// characters they stand in the path as they are. A client without a
/// namespace of its own is routed to the namespace `default`.
pub proof fn lemma_namespaced_resource_path(kind: Kind, namespace: Seq<char>, name: Seq<char>)
    requires
        namespaced(kind),
    ensures
        typed_resource_path(kind, Some(namespace), name) == kind_api(kind) + "/namespaces/"@
            + encoded_segment(namespace) + "/"@ + kind_plural(kind) + "/"@ + encoded_segment(name),
        plain_segment(namespace) && plain_segment(name) ==> typed_resource_path(
            kind,
            Some(namespace),
            name,
        ) == kind_api(kind) + "/namespaces/"@ + namespace + "/"@ + kind_plural(kind) + "/"@ + name,
        typed_resource_path(kind, None, name) == kind_api(kind) + "/namespaces/"@ + "default"@
            + "/"@ + kind_plural(kind) + "/"@ + encoded_segment(name),
        typed_kind_path(kind, Some(namespace)) == kind_api(kind) + "/namespaces/"@
            + encoded_segment(namespace) + "/"@ + kind_plural(kind),
{
    lemma_registry_segments_plain(kind);
    if plain_segment(namespace) && plain_segment(name) {
        lemma_plain_segment_unchanged(namespace);
        lemma_plain_segment_unchanged(name);
    }
}

/// For a cluster-scoped kind the path has no namespace segment, whatever
/// namespace the client works in: the kind is served at `{api}/{plural}` and
/// the resource `name` at `{api}/{plural}/{name}`.
pub proof fn lemma_cluster_scoped_path(kind: Kind, namespace: Option<Seq<char>>, name: Seq<char>)
    requires
        !namespaced(kind),
    ensures
        effective_namespace(kind, namespace) is None,
        typed_kind_path(kind, namespace) == kind_api(kind) + "/"@ + kind_plural(kind),
        typed_resource_path(kind, namespace, name) == kind_api(kind) + "/"@ + kind_plural(kind)
            + "/"@ + encoded_segment(name),
        typed_kind_path(kind, namespace) == typed_kind_path(kind, None),
        typed_resource_path(kind, namespace, name) == typed_resource_path(kind, None, name),
{
    lemma_registry_segments_plain(kind);
}

/// The route by which a resource is fetched is the route by which it was
/// created, followed by `/` and the percent-encoded name: what is created
/// under the route of a kind is fetched, checked and deleted under that same
/// route, in the same namespace.
pub proof fn lemma_resource_under_kind(kind: Kind, namespace: Option<Seq<char>>, name: Seq<char>)
    ensures
        typed_resource_path(kind, namespace, name) == typed_kind_path(kind, namespace) + "/"@
            + encoded_segment(name),
{
}


/// Create, then get: a round trip. Take a server that keeps what it answers
/// to a successful create under the URL of the resource. The request that
/// fetches the resource by its name, formed by the same client for the same
/// type, then comes to the body that the create came to, byte for byte: the
/// resource that is fetched has the kind, the name, the namespace and every
/// other field of the resource that the server reported as created. Both
/// requests are routed by the same kind and to the same namespace.
pub proof fn lemma_create_then_get(
    base_url: Seq<char>,
    kind: Kind,
    namespace: Option<Seq<char>>,
    name: Seq<char>,
    store: Map<Seq<char>, Seq<u8>>,
    answer: ResponseView,
)
    requires
        resolved(base_url, typed_kind_path(kind, namespace), None) is Ok,
        resolved(base_url, typed_resource_path(kind, namespace, name), None) is Ok,
        success(answer.status),
    ensures
        ({
            let create = planned(
                Method::Post,
                resolved(base_url, typed_kind_path(kind, namespace), None),
            )->Ok_0;
            let get = planned(
                Method::Get,
                resolved(base_url, typed_resource_path(kind, namespace, name), None),
            )->Ok_0;
            let kept = store.insert(get.url, answer.body);
            &&& body_result(create, answer) == Ok::<Seq<u8>, ErrorView>(answer.body)
            &&& body_result(get, served(kept, get.url)) == body_result(create, answer)
            &&& typed_resource_path(kind, namespace, name) == typed_kind_path(kind, namespace)
                + "/"@ + encoded_segment(name)
        }),
{
}

} // verus!
