//! The typed clients: one per type of resource.

use crate::clients::low_level::{planned, request_outcome, Method, Request, RequestView};
use crate::clients::{
    scale_planned, typed_kind_path, typed_resource_path, Kubernetes, KubernetesView, ScalePlan,
};
use crate::errors::{Error, ErrorView};
use crate::location::resolved;
use crate::resources::deployment::ScaleView;
use crate::resources::list_query::ListQuery;
use crate::resources::Resource;
use std::marker::PhantomData;
use vstd::prelude::*;

verus! {

/// A client for the resources of the type `R`.
pub struct KubeClient<R> {
    kube: Kubernetes,
    _marker: PhantomData<R>,
}

impl<R> View for KubeClient<R> {
    type V = KubernetesView;

    closed spec fn view(&self) -> KubernetesView {
        self.kube@
    }
}

impl<R> KubeClient<R> {
    /// The typed client that works through `kube`.
    pub fn new(kube: Kubernetes) -> (client: KubeClient<R>)
        ensures
            client@ == kube@,
    {
        KubeClient { kube, _marker: PhantomData }
    }

    /// A client for the same type of resource in the same cluster that
    /// works in `namespace`.
    pub fn namespace(&self, namespace: &str) -> (client: Self)
        ensures
            client@ == (KubernetesView { namespace: Some(namespace@), ..self@ }),
    {
        KubeClient { kube: self.kube.namespace(namespace), _marker: PhantomData }
    }

    /// The client that this typed client works through.
    pub fn kube(&self) -> (kube: &Kubernetes)
        ensures
            kube@ == self@,
    {
        &self.kube
    }
}

impl<R: Resource> KubeClient<R> {
    /// The request that scales the resource `name` to `count` replicas, and
    /// its body. Fails with a configuration error, before any request is
    /// formed, where the kind resolves to no namespace or cannot be scaled.
    pub fn scale(&self, name: &str, count: u32) -> (r: Result<ScalePlan, Error>)
        ensures
            match r {
                Ok(plan) => scale_planned(
                    self@.base_url,
                    R::bound_kind(),
                    self@.namespace,
                    name@,
                    count,
                ) == Ok::<(RequestView, ScaleView), ErrorView>((plan.request@, plan.body@)),
                Err(e) => scale_planned(
                    self@.base_url,
                    R::bound_kind(),
                    self@.namespace,
                    name@,
                    count,
                ) == Err::<(RequestView, ScaleView), ErrorView>(e@),
            },
    {
        self.kube.scale_request::<R>(name, count)
    }
}

/// Reading resources of one type.
pub trait ReadClient {
    /// The type of resource.
    type R;

    /// The request that checks whether the resource `name` exists.
    fn exists_request(&self, name: &str) -> Result<Request, Error>;

    /// The request that fetches the resource `name`.
    fn get_request(&self, name: &str) -> Result<Request, Error>;
}

/// Writing resources of one type.
pub trait WriteClient {
    /// The type of resource.
    type R;

    /// The request that creates a resource. Its body is the full resource.
    fn create_request(&self) -> Result<Request, Error>;

    /// The request that deletes the resource `name`.
    fn delete_request(&self, name: &str) -> Result<Request, Error>;
}

/// Listing resources of one type.
pub trait ListClient {
    /// The type of resource.
    type R;

    /// The request that lists the resources, with the options of `query` as
    /// its query pairs where a query is given.
    fn list_request(&self, query: Option<&ListQuery>) -> Result<Request, Error>;
}

impl<R: Resource> ReadClient for KubeClient<R> {
    type R = R;

    fn exists_request(&self, name: &str) -> (r: Result<Request, Error>)
        ensures
            request_outcome(
                r,
                planned(
                    Method::Get,
                    resolved(
                        self@.base_url,
                        typed_resource_path(R::bound_kind(), self@.namespace, name@),
                        None,
                    ),
                ),
            ),
    {
        self.kube.exists_request::<R>(name)
    }

    fn get_request(&self, name: &str) -> (r: Result<Request, Error>)
        ensures
            request_outcome(
                r,
                planned(
                    Method::Get,
                    resolved(
                        self@.base_url,
                        typed_resource_path(R::bound_kind(), self@.namespace, name@),
                        None,
                    ),
                ),
            ),
    {
        self.kube.get_request::<R>(name)
    }
}

impl<R: Resource> WriteClient for KubeClient<R> {
    type R = R;

    fn create_request(&self) -> (r: Result<Request, Error>)
        ensures
            request_outcome(
                r,
                planned(
                    Method::Post,
                    resolved(
                        self@.base_url,
                        typed_kind_path(R::bound_kind(), self@.namespace),
                        None,
                    ),
                ),
            ),
    {
        self.kube.create_request::<R>()
    }

    fn delete_request(&self, name: &str) -> (r: Result<Request, Error>)
        ensures
            request_outcome(
                r,
                planned(
                    Method::Delete,
                    resolved(
                        self@.base_url,
                        typed_resource_path(R::bound_kind(), self@.namespace, name@),
                        None,
                    ),
                ),
            ),
    {
        self.kube.delete_request::<R>(name)
    }
}

impl<R: Resource> ListClient for KubeClient<R> {
    type R = R;

    fn list_request(&self, query: Option<&ListQuery>) -> (r: Result<Request, Error>)
        ensures
            request_outcome(
                r,
                planned(
                    Method::Get,
                    resolved(
                        self@.base_url,
                        typed_kind_path(R::bound_kind(), self@.namespace),
                        match query {
                            Some(q) => Some(q@.pairs()),
                            None => None,
                        },
                    ),
                ),
            ),
    {
        self.kube.list_request::<R>(query)
    }
}

} // verus!
