//! The identity of a resource: its name and its namespace.

use vstd::prelude::*;

verus! {

/// The part of a resource's metadata that routing reads.
#[derive(Clone, Debug)]
pub struct Metadata {
    /// The name of the resource.
    pub name: Option<String>,
    /// The namespace the resource lives in, where it names one.
    pub namespace: Option<String>,
}

/// The character view of an optional string.
pub open spec fn opt_string_view(s: Option<String>) -> Option<Seq<char>> {
    match s {
        Some(s) => Some(s@),
        None => None,
    }
}

/// A copy of an optional string.
pub fn copy_opt_string(s: &Option<String>) -> (copy: Option<String>)
    ensures
        opt_string_view(copy) == opt_string_view(*s),
{
    match s {
        Some(s) => Some(s.clone()),
        None => None,
    }
}

impl Metadata {
    /// The metadata of a resource with the given name and no namespace.
    pub fn named(name: &str) -> (metadata: Metadata)
        ensures
            opt_string_view(metadata.name) == Some(name@),
            metadata.namespace is None,
    {
        Metadata { name: Some(String::from_str(name)), namespace: None }
    }

    /// A copy of this metadata.
    pub fn copy(&self) -> (copy: Metadata)
        ensures
            opt_string_view(copy.name) == opt_string_view(self.name),
            opt_string_view(copy.namespace) == opt_string_view(self.namespace),
    {
        Metadata { name: copy_opt_string(&self.name), namespace: copy_opt_string(&self.namespace) }
    }
}

impl Default for Metadata {
    fn default() -> (metadata: Metadata)
        ensures
            metadata.name is None,
            metadata.namespace is None,
    {
        Metadata { name: None, namespace: None }
    }
}

} // verus!
