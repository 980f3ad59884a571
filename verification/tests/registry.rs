use kubeclient::resources::{resolve_namespace, Kind, DEFAULT_NAMESPACE, V1_API, V1_BETA_API};

fn all_kinds() -> Vec<Kind> {
    vec![
        Kind::DaemonSet,
        Kind::Deployment,
        Kind::ConfigMap,
        Kind::NetworkPolicy,
        Kind::Node,
        Kind::Pod,
        Kind::Secret,
        Kind::Service,
    ]
}

#[test]
fn registry_entries() {
    let expected = [
        (Kind::DaemonSet, "daemonsets", Some("default"), "/apis/extensions/v1beta1"),
        (Kind::Deployment, "deployments", Some("default"), "/apis/extensions/v1beta1"),
        (Kind::ConfigMap, "configmaps", Some("default"), "/api/v1"),
        (Kind::NetworkPolicy, "networkpolicies", Some("default"), "/apis/extensions/v1beta1"),
        (Kind::Node, "nodes", None, "/api/v1"),
        (Kind::Pod, "pods", Some("default"), "/api/v1"),
        (Kind::Secret, "secrets", Some("default"), "/api/v1"),
        (Kind::Service, "services", Some("default"), "/api/v1"),
    ];
    for (kind, plural, namespace, api) in expected {
        let info = kind.info();
        assert_eq!(info.plural, plural);
        assert_eq!(info.default_namespace, namespace);
        assert_eq!(info.api, api);
        assert_eq!(kind.route(), plural);
    }
}

#[test]
fn registry_constants() {
    assert_eq!(V1_API, "/api/v1");
    assert_eq!(V1_BETA_API, "/apis/extensions/v1beta1");
    assert_eq!(DEFAULT_NAMESPACE, "default");
}

#[test]
fn kind_names_round_trip() {
    for kind in all_kinds() {
        assert_eq!(Kind::from_name(kind.name()), Some(kind));
    }
    assert_eq!(Kind::ConfigMap.name(), "ConfigMap");
    assert_eq!(Kind::NetworkPolicy.name(), "NetworkPolicy");
}

#[test]
fn kind_names_are_distinct() {
    let kinds = all_kinds();
    for a in &kinds {
        for b in &kinds {
            assert_eq!(a.name() == b.name(), a == b);
        }
    }
}

#[test]
fn unknown_kind_names() {
    assert_eq!(Kind::from_name("Ingress"), None);
    assert_eq!(Kind::from_name("configmap"), None);
    assert_eq!(Kind::from_name("Pods"), None);
    assert_eq!(Kind::from_name(""), None);
}

#[test]
fn only_nodes_are_cluster_scoped() {
    for kind in all_kinds() {
        assert_eq!(kind.info().default_namespace.is_none(), kind == Kind::Node);
    }
}

#[test]
fn namespace_asked_for_wins_over_the_default() {
    assert_eq!(resolve_namespace(Kind::Pod, Some("kube-system")), Some("kube-system"));
    assert_eq!(resolve_namespace(Kind::Pod, None), Some("default"));
}

#[test]
fn namespace_is_ignored_for_a_cluster_scoped_kind() {
    assert_eq!(resolve_namespace(Kind::Node, Some("kube-system")), None);
    assert_eq!(resolve_namespace(Kind::Node, None), None);
}
