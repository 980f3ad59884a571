//! The scale of a deployment: how many replicas it is to run.

use crate::resources::metadata::{opt_string_view, Metadata};
use vstd::prelude::*;

verus! {

/// A request to scale a resource to a number of replicas.
#[derive(Clone, Debug)]
pub struct Scale {
    /// The number of replicas asked for.
    pub replicas: u32,
    /// The name and the namespace of the resource to scale.
    pub metadata: Metadata,
}

/// The mathematical content of a [`Scale`].
pub struct ScaleView {
    pub replicas: nat,
    pub name: Option<Seq<char>>,
    pub namespace: Option<Seq<char>>,
}

impl View for Scale {
    type V = ScaleView;

    open spec fn view(&self) -> ScaleView {
        ScaleView {
            replicas: self.replicas as nat,
            name: opt_string_view(self.metadata.name),
            namespace: opt_string_view(self.metadata.namespace),
        }
    }
}

impl Scale {
    /// The scale of `count` replicas for the resource `name` in `namespace`.
    pub fn replicas(namespace: &str, name: &str, count: u32) -> (scale: Scale)
        ensures
            scale@ == (ScaleView {
                replicas: count as nat,
                name: Some(name@),
                namespace: Some(namespace@),
            }),
    {
        Scale {
            replicas: count,
            metadata: Metadata {
                name: Some(String::from_str(name)),
                namespace: Some(String::from_str(namespace)),
            },
        }
    }
}

} // verus!
