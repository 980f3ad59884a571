//! The registry of resource kinds and the types that describe resources.
//!
//! The registry is a closed table: one entry per supported kind, fixing the
//! plural route segment, the API prefix and whether the kind lives in a
//! namespace. Both the typed clients and the directory applier route by it.


pub mod config_map;
pub mod deployment;
pub mod entries;
pub mod list_query;
pub mod metadata;
pub mod pod;
pub mod secret;
pub mod status;

use crate::text::same_text;
use vstd::prelude::*;

verus! {

/// The API prefix of the core group.
pub const V1_API: &'static str = "/api/v1";

/// The API prefix of the extensions group.
pub const V1_BETA_API: &'static str = "/apis/extensions/v1beta1";

/// The namespace that a namespaced kind lives in where none is named.
pub const DEFAULT_NAMESPACE: &'static str = "default";

/// The supported kinds of resources.
#[derive(Clone, Copy, Debug, PartialEq, Eq, Hash, Structural)]
pub enum Kind {
    DaemonSet,
    Deployment,
    ConfigMap,
    NetworkPolicy,
    Node,
    Pod,
    Secret,
    Service,
}

/// What the registry holds for one kind.
#[derive(Clone, Copy, Debug)]
pub struct KindInfo {
    /// The plural route segment, such as `pods`.
    pub plural: &'static str,
    /// The namespace used where none is named; `None` marks a kind that is
    /// cluster-scoped.
    pub default_namespace: Option<&'static str>,
    /// The API prefix, such as `/api/v1`.
    pub api: &'static str,
}

/// The name of a kind, as manifests spell it.
pub open spec fn kind_name(kind: Kind) -> Seq<char> {
    match kind {
        Kind::DaemonSet => "DaemonSet"@,
        Kind::Deployment => "Deployment"@,
        Kind::ConfigMap => "ConfigMap"@,
        Kind::NetworkPolicy => "NetworkPolicy"@,
        Kind::Node => "Node"@,
        Kind::Pod => "Pod"@,
        Kind::Secret => "Secret"@,
        Kind::Service => "Service"@,
    }
}

/// The plural route segment of a kind.
pub open spec fn kind_plural(kind: Kind) -> Seq<char> {
    match kind {
        Kind::DaemonSet => "daemonsets"@,
        Kind::Deployment => "deployments"@,
        Kind::ConfigMap => "configmaps"@,
        Kind::NetworkPolicy => "networkpolicies"@,
        Kind::Node => "nodes"@,
        Kind::Pod => "pods"@,
        Kind::Secret => "secrets"@,
        Kind::Service => "services"@,
    }
}

/// The API prefix of a kind.
pub open spec fn kind_api(kind: Kind) -> Seq<char> {
    match kind {
        Kind::DaemonSet | Kind::Deployment | Kind::NetworkPolicy => V1_BETA_API@,
        Kind::ConfigMap | Kind::Node | Kind::Pod | Kind::Secret | Kind::Service => V1_API@,
    }
}

/// Whether a kind is partitioned per namespace. Nodes are global.
pub open spec fn namespaced(kind: Kind) -> bool {
    kind != Kind::Node
}

/// The default namespace of a kind; `None` for a cluster-scoped kind.
pub open spec fn kind_default_namespace(kind: Kind) -> Option<Seq<char>> {
    if namespaced(kind) {
        Some(DEFAULT_NAMESPACE@)
    } else {
        None
    }
}

/// The namespace that a request for `kind` is routed to: none for a
/// cluster-scoped kind, whatever was asked for; else the namespace asked for,
/// and the kind's default where none was.
pub open spec fn effective_namespace(kind: Kind, explicit: Option<Seq<char>>) -> Option<Seq<char>> {
    match kind_default_namespace(kind) {
        None => None,
        Some(default) => match explicit {
            Some(ns) => Some(ns),
            None => Some(default),
        },
    }
}

/// The character view of an optional string slice.
pub open spec fn opt_view(s: Option<&str>) -> Option<Seq<char>> {
    match s {
        Some(s) => Some(s@),
        None => None,
    }
}

impl Kind {
    /// The registry entry of this kind.
    pub fn info(&self) -> (info: KindInfo)
        ensures
            info.plural@ == kind_plural(*self),
            info.api@ == kind_api(*self),
            opt_view(info.default_namespace) == kind_default_namespace(*self),
    {
        match self {
            Kind::ConfigMap => KindInfo {
                plural: "configmaps",
                default_namespace: Some(DEFAULT_NAMESPACE),
                api: V1_API,
            },
            Kind::DaemonSet => KindInfo {
                plural: "daemonsets",
                default_namespace: Some(DEFAULT_NAMESPACE),
                api: V1_BETA_API,
            },
            Kind::Deployment => KindInfo {
                plural: "deployments",
                default_namespace: Some(DEFAULT_NAMESPACE),
                api: V1_BETA_API,
            },
            Kind::NetworkPolicy => KindInfo {
                plural: "networkpolicies",
                default_namespace: Some(DEFAULT_NAMESPACE),
                api: V1_BETA_API,
            },
            Kind::Node => KindInfo { plural: "nodes", default_namespace: None, api: V1_API },
            Kind::Pod => KindInfo {
                plural: "pods",
                default_namespace: Some(DEFAULT_NAMESPACE),
                api: V1_API,
            },
            Kind::Secret => KindInfo {
                plural: "secrets",
                default_namespace: Some(DEFAULT_NAMESPACE),
                api: V1_API,
            },
            Kind::Service => KindInfo {
                plural: "services",
                default_namespace: Some(DEFAULT_NAMESPACE),
                api: V1_API,
            },
        }
    }

    /// The plural route segment of this kind.
    pub fn route(&self) -> (plural: &'static str)
        ensures
            plural@ == kind_plural(*self),
    {
        self.info().plural
    }

    /// The name of this kind, as manifests spell it.
    pub fn name(&self) -> (name: &'static str)
        ensures
            name@ == kind_name(*self),
    {
        match self {
            Kind::DaemonSet => "DaemonSet",
            Kind::Deployment => "Deployment",
            Kind::ConfigMap => "ConfigMap",
            Kind::NetworkPolicy => "NetworkPolicy",
            Kind::Node => "Node",
            Kind::Pod => "Pod",
            Kind::Secret => "Secret",
            Kind::Service => "Service",
        }
    }

    /// The kind with the given name. Names are matched exactly, case
    /// included; a name that the registry does not hold gives `None`.
    pub fn from_name(name: &str) -> (kind: Option<Kind>)
        ensures
            kind == kind_named(name@),
    {
        proof {
            lemma_kind_names_distinct();
        }
        if same_text(name, "DaemonSet") {
            Some(Kind::DaemonSet)
        } else if same_text(name, "Deployment") {
            Some(Kind::Deployment)
        } else if same_text(name, "ConfigMap") {
            Some(Kind::ConfigMap)
        } else if same_text(name, "NetworkPolicy") {
            Some(Kind::NetworkPolicy)
        } else if same_text(name, "Node") {
            Some(Kind::Node)
        } else if same_text(name, "Pod") {
            Some(Kind::Pod)
        } else if same_text(name, "Secret") {
            Some(Kind::Secret)
        } else if same_text(name, "Service") {
            Some(Kind::Service)
        } else {
            None
        }
    }
}

/// The kind that carries the name `name`, if the registry holds one.
pub open spec fn kind_named(name: Seq<char>) -> Option<Kind> {
    if name == kind_name(Kind::DaemonSet) {
        Some(Kind::DaemonSet)
    } else if name == kind_name(Kind::Deployment) {
        Some(Kind::Deployment)
    } else if name == kind_name(Kind::ConfigMap) {
        Some(Kind::ConfigMap)
    } else if name == kind_name(Kind::NetworkPolicy) {
        Some(Kind::NetworkPolicy)
    } else if name == kind_name(Kind::Node) {
        Some(Kind::Node)
    } else if name == kind_name(Kind::Pod) {
        Some(Kind::Pod)
    } else if name == kind_name(Kind::Secret) {
        Some(Kind::Secret)
    } else if name == kind_name(Kind::Service) {
        Some(Kind::Service)
    } else {
        None
    }
}

/// No two kinds share a name, so a name stands for at most one kind: the
/// kind named by a kind's own name is that kind, and a name that stands for
/// no kind is the name of none.
pub proof fn lemma_kind_names_distinct()
    ensures
        forall|a: Kind, b: Kind| kind_name(a) == kind_name(b) ==> a == b,
        forall|k: Kind| #[trigger] kind_named(kind_name(k)) == Some(k),
        forall|name: Seq<char>|
            #[trigger] kind_named(name) is Some ==> kind_name(kind_named(name)->0) == name,
        forall|name: Seq<char>|
            #[trigger] kind_named(name) is None ==> (forall|k: Kind|
                #[trigger] kind_name(k) != name),
{
    reveal_strlit("DaemonSet");
    reveal_strlit("Deployment");
    reveal_strlit("ConfigMap");
    reveal_strlit("NetworkPolicy");
    reveal_strlit("Node");
    reveal_strlit("Pod");
    reveal_strlit("Secret");
    reveal_strlit("Service");
    assert forall|a: Kind, b: Kind| kind_name(a) == kind_name(b) implies a == b by {
        if a != b {
            let x = kind_name(a);
            let y = kind_name(b);
            if x.len() == y.len() {
                assert(x[0] != y[0] || x[2] != y[2]);
            }
        }
    }
}

/// Resolves the namespace that a request for `kind` is routed to. A
/// namespace asked for is ignored for a cluster-scoped kind.
pub fn resolve_namespace<'a>(kind: Kind, explicit: Option<&'a str>) -> (ns: Option<&'a str>)
    ensures
        opt_view(ns) == effective_namespace(kind, opt_view(explicit)),
{
    match kind.info().default_namespace {
        None => None,
        Some(default) => match explicit {
            Some(ns) => Some(ns),
            None => Some(default),
        },
    }
}

/// A type of resource, bound to its kind. The kind decides how the type is
/// routed: its API prefix, its plural, and whether it lives in a namespace.
pub trait Resource: Sized {
    /// The kind that this type of resource is bound to. This is the name by
    /// which contracts speak of the kind; [`Resource::kind`] returns it.
    spec fn bound_kind() -> Kind;

    /// The kind of this type of resource.
    fn kind() -> (kind: Kind)
        ensures
            kind == Self::bound_kind(),
    ;

    /// The API prefix under which this type of resource is served.
    fn api() -> (api: &'static str)
        ensures
            api@ == kind_api(Self::bound_kind()),
    {
        Self::kind().info().api
    }

    /// The namespace used for this type of resource where none is named.
    fn default_namespace() -> (ns: Option<&'static str>)
        ensures
            opt_view(ns) == kind_default_namespace(Self::bound_kind()),
    {
        Self::kind().info().default_namespace
    }
}

} // verus!
