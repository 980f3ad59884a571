use kubeclient::clients::routes::{KindRoute, ResourceRoute};
use kubeclient::errors::ErrorKind;
use kubeclient::resources::list_query::ListQuery;

const BASE: &str = "https://10.0.0.1:6443/";

#[test]
fn kind_route_without_namespace() {
    let route = KindRoute::new("/api/v1", "nodes");
    assert_eq!(route.path(), "/api/v1/nodes");
    assert_eq!(route.build(BASE).unwrap(), "https://10.0.0.1:6443/api/v1/nodes");
}

#[test]
fn kind_route_with_namespace() {
    let mut route = KindRoute::new("/api/v1", "pods");
    route.namespace("kube-system");
    assert_eq!(route.path(), "/api/v1/namespaces/kube-system/pods");
    assert_eq!(
        route.build(BASE).unwrap(),
        "https://10.0.0.1:6443/api/v1/namespaces/kube-system/pods"
    );
}

#[test]
fn resource_route_with_namespace() {
    let mut route = ResourceRoute::new("/apis/extensions/v1beta1", "deployments", "web-server");
    route.namespace("default");
    assert_eq!(
        route.path(),
        "/apis/extensions/v1beta1/namespaces/default/deployments/web-server"
    );
    assert_eq!(
        route.build(BASE).unwrap(),
        "https://10.0.0.1:6443/apis/extensions/v1beta1/namespaces/default/deployments/web-server"
    );
}

#[test]
fn resource_route_without_namespace() {
    let route = ResourceRoute::new("/api/v1", "nodes", "node-123");
    assert_eq!(route.path(), "/api/v1/nodes/node-123");
}

#[test]
fn resource_route_with_subresource() {
    let mut route = ResourceRoute::new("/apis/extensions/v1beta1", "deployments", "web");
    route.namespace("default").subresource("scale");
    assert_eq!(
        route.path(),
        "/apis/extensions/v1beta1/namespaces/default/deployments/web/scale"
    );
}

#[test]
fn builder_calls_chain() {
    let mut route = KindRoute::new("/api/v1", "pods");
    route
        .namespace("a")
        .query(vec![("labelSelector".to_string(), "x".to_string())]);
    assert_eq!(
        route.build(BASE).unwrap(),
        "https://10.0.0.1:6443/api/v1/namespaces/a/pods?labelSelector=x"
    );
}

#[test]
fn dynamic_segments_are_percent_encoded() {
    let mut route = ResourceRoute::new("/api/v1", "config maps", "a/b?c#d");
    route.namespace("my ns");
    assert_eq!(
        route.path(),
        "/api/v1/namespaces/my%20ns/config%20maps/a%2Fb%3Fc%23d"
    );
    assert_eq!(
        route.build(BASE).unwrap(),
        "https://10.0.0.1:6443/api/v1/namespaces/my%20ns/config%20maps/a%2Fb%3Fc%23d"
    );
}

#[test]
fn percent_sign_and_unicode_in_a_name() {
    let route = ResourceRoute::new("/api/v1", "pods", "50%é");
    assert_eq!(route.path(), "/api/v1/pods/50%25%C3%A9");
}

#[test]
fn label_selector_is_percent_encoded_in_the_query() {
    let query = ListQuery::default().label_selector("app=foo");
    let mut route = KindRoute::new("/api/v1", "pods");
    route.namespace("default");
    route.query(query.as_query_pairs());
    let url = route.build(BASE).unwrap();
    assert!(url.contains("labelSelector=app%3Dfoo"));
    assert_eq!(
        url,
        "https://10.0.0.1:6443/api/v1/namespaces/default/pods?labelSelector=app%3Dfoo"
    );
}

#[test]
fn several_query_pairs_keep_their_order() {
    let query = ListQuery::default()
        .timeout_seconds(30)
        .label_selector("tier=web,env in (a, b)")
        .resource_version("42");
    let mut route = KindRoute::new("/api/v1", "pods");
    route.query(query.as_query_pairs());
    assert_eq!(
        route.build(BASE).unwrap(),
        "https://10.0.0.1:6443/api/v1/pods?labelSelector=tier%3Dweb%2Cenv+in+%28a%2C+b%29&resourceVersion=42&timeoutSeconds=30"
    );
}

#[test]
fn an_empty_query_leaves_an_empty_query_string() {
    let mut route = KindRoute::new("/api/v1", "pods");
    route.query(Vec::new());
    assert_eq!(route.build(BASE).unwrap(), "https://10.0.0.1:6443/api/v1/pods?");
}

#[test]
fn resource_route_query() {
    let mut route = ResourceRoute::new("/api/v1", "pods", "web");
    route.query(vec![("tty".to_string(), "true".to_string())]);
    assert_eq!(route.build(BASE).unwrap(), "https://10.0.0.1:6443/api/v1/pods/web?tty=true");
}

#[test]
fn later_query_replaces_earlier() {
    let mut route = KindRoute::new("/api/v1", "pods");
    route.query(vec![("a".to_string(), "1".to_string())]);
    route.query(vec![("b".to_string(), "2".to_string())]);
    assert_eq!(route.build(BASE).unwrap(), "https://10.0.0.1:6443/api/v1/pods?b=2");
}

#[test]
fn base_url_that_is_not_absolute_is_a_url_error() {
    let route = KindRoute::new("/api/v1", "pods");
    let err = route.build("not a url").unwrap_err();
    assert_eq!(err.kind(), ErrorKind::Url);
    assert_eq!(err.message(), "relative URL without a base");
    assert_eq!(err.context(), &vec!["failed to join not a url and /api/v1/pods".to_string()]);
    assert_eq!(
        err.describe(),
        "failed to join not a url and /api/v1/pods: relative URL without a base"
    );
}

#[test]
fn base_url_with_a_path_keeps_only_its_origin() {
    let route = KindRoute::new("/api/v1", "pods");
    assert_eq!(
        route.build("https://example.net/k8s/clusters/c1/").unwrap(),
        "https://example.net/api/v1/pods"
    );
}

#[test]
fn long_query_is_appended_whole() {
    let value = "a=b&c ".repeat(500_000);
    let mut route = KindRoute::new("/api/v1", "pods");
    route.query(vec![("labelSelector".to_string(), value.clone())]);
    let url = route.build(BASE).unwrap();
    let prefix = "https://10.0.0.1:6443/api/v1/pods?labelSelector=";
    assert!(url.starts_with(prefix));
    assert_eq!(url.len(), prefix.len() + 500_000 * "a%3Db%26c+".len());
    assert_eq!(&url[prefix.len()..prefix.len() + 20], "a%3Db%26c+a%3Db%26c+");
}
