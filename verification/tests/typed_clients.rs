use kubeclient::clients::low_level::{KubeLowLevel, Method};
use kubeclient::clients::resource_clients::KubeClient;
use kubeclient::errors::ErrorKind;
use kubeclient::prelude::{Kubernetes, ListClient, ReadClient, WriteClient};
use kubeclient::resources::config_map::ConfigMap;
use kubeclient::resources::list_query::ListQuery;
use kubeclient::resources::secret::Secret;
use kubeclient::resources::{Kind, Resource};

struct Node;

impl Resource for Node {
    fn bound_kind() -> Kind {
        Kind::Node
    }

    fn kind() -> Kind {
        Kind::Node
    }
}

struct Deployment;

impl Resource for Deployment {
    fn bound_kind() -> Kind {
        Kind::Deployment
    }

    fn kind() -> Kind {
        Kind::Deployment
    }
}

struct Pod;

impl Resource for Pod {
    fn bound_kind() -> Kind {
        Kind::Pod
    }

    fn kind() -> Kind {
        Kind::Pod
    }
}

fn kube() -> Kubernetes {
    Kubernetes::new(KubeLowLevel::new("https://10.0.0.1:6443"))
}

#[test]
fn resource_defaults_follow_the_registry() {
    assert_eq!(Node::api(), "/api/v1");
    assert_eq!(Node::default_namespace(), None);
    assert_eq!(Deployment::api(), "/apis/extensions/v1beta1");
    assert_eq!(Deployment::default_namespace(), Some("default"));
}

#[test]
fn namespaced_kind_is_routed_to_its_default_namespace() {
    let request = kube().get_request::<Secret>("my-secret").unwrap();
    assert_eq!(request.method, Method::Get);
    assert_eq!(request.url, "https://10.0.0.1:6443/api/v1/namespaces/default/secrets/my-secret");
}

#[test]
fn namespaced_kind_is_routed_to_the_namespace_of_the_client() {
    let kube = kube().namespace("kube-system");
    let request = kube.get_request::<Secret>("clusterinfo").unwrap();
    assert_eq!(
        request.url,
        "https://10.0.0.1:6443/api/v1/namespaces/kube-system/secrets/clusterinfo"
    );
    let request = kube.get_request::<Deployment>("web").unwrap();
    assert_eq!(
        request.url,
        "https://10.0.0.1:6443/apis/extensions/v1beta1/namespaces/kube-system/deployments/web"
    );
}

#[test]
fn route_of_every_namespaced_kind() {
    let kube = kube().namespace("ns1");
    assert_eq!(
        kube.get_request::<ConfigMap>("x").unwrap().url,
        "https://10.0.0.1:6443/api/v1/namespaces/ns1/configmaps/x"
    );
    assert_eq!(
        kube.get_request::<Pod>("x").unwrap().url,
        "https://10.0.0.1:6443/api/v1/namespaces/ns1/pods/x"
    );
}

#[test]
fn cluster_scoped_kind_has_no_namespace_segment() {
    let request = kube().get_request::<Node>("node-123").unwrap();
    assert_eq!(request.url, "https://10.0.0.1:6443/api/v1/nodes/node-123");
    let request = kube().list_request::<Node>(None).unwrap();
    assert_eq!(request.url, "https://10.0.0.1:6443/api/v1/nodes");
}

#[test]
fn cluster_scoped_kind_ignores_the_namespace_of_the_client() {
    let kube = kube().namespace("kube-system");
    assert_eq!(kube.get_ns::<Node>(), None);
    assert_eq!(
        kube.get_request::<Node>("node-123").unwrap().url,
        "https://10.0.0.1:6443/api/v1/nodes/node-123"
    );
    assert_eq!(
        kube.exists_request::<Node>("node-123").unwrap().url,
        "https://10.0.0.1:6443/api/v1/nodes/node-123"
    );
    assert_eq!(
        kube.delete_request::<Node>("node-123").unwrap().url,
        "https://10.0.0.1:6443/api/v1/nodes/node-123"
    );
    assert_eq!(
        kube.list_request::<Node>(None).unwrap().url,
        "https://10.0.0.1:6443/api/v1/nodes"
    );
    assert_eq!(
        kube.create_request::<Node>().unwrap().url,
        "https://10.0.0.1:6443/api/v1/nodes"
    );
}

#[test]
fn effective_namespace_of_a_client() {
    assert_eq!(kube().get_ns::<Pod>(), Some("default"));
    assert_eq!(kube().namespace("a").get_ns::<Pod>(), Some("a"));
    assert_eq!(kube().namespace("a").namespace("b").get_ns::<Pod>(), Some("b"));
}

#[test]
fn each_operation_has_its_verb_and_route() {
    let kube = kube();
    let resource = "https://10.0.0.1:6443/api/v1/namespaces/default/configmaps/cfg";
    let kind = "https://10.0.0.1:6443/api/v1/namespaces/default/configmaps";
    let request = kube.exists_request::<ConfigMap>("cfg").unwrap();
    assert_eq!((request.method, request.url.as_str()), (Method::Get, resource));
    let request = kube.get_request::<ConfigMap>("cfg").unwrap();
    assert_eq!((request.method, request.url.as_str()), (Method::Get, resource));
    let request = kube.delete_request::<ConfigMap>("cfg").unwrap();
    assert_eq!((request.method, request.url.as_str()), (Method::Delete, resource));
    let request = kube.list_request::<ConfigMap>(None).unwrap();
    assert_eq!((request.method, request.url.as_str()), (Method::Get, kind));
    let request = kube.create_request::<ConfigMap>().unwrap();
    assert_eq!((request.method, request.url.as_str()), (Method::Post, kind));
}

#[test]
fn created_resource_is_fetched_under_the_route_it_was_created_under() {
    let kube = kube().namespace("ns1");
    let created = kube.create_request::<ConfigMap>().unwrap();
    let fetched = kube.get_request::<ConfigMap>("cfg1").unwrap();
    assert_eq!(fetched.url, format!("{}/cfg1", created.url));
}

#[test]
fn list_with_a_query() {
    let query = ListQuery::default().label_selector("app=foo").timeout_seconds(5);
    let request = kube().list_request::<Pod>(Some(&query)).unwrap();
    assert_eq!(
        request.url,
        "https://10.0.0.1:6443/api/v1/namespaces/default/pods?labelSelector=app%3Dfoo&timeoutSeconds=5"
    );
}

#[test]
fn names_are_percent_encoded_in_typed_requests() {
    let request = kube().namespace("a b").get_request::<Pod>("x/y").unwrap();
    assert_eq!(request.url, "https://10.0.0.1:6443/api/v1/namespaces/a%20b/pods/x%2Fy");
}

#[test]
fn scale_puts_to_the_scale_subresource() {
    let plan = kube().scale_request::<Deployment>("web-server", 7).unwrap();
    assert_eq!(plan.request.method, Method::Put);
    assert_eq!(
        plan.request.url,
        "https://10.0.0.1:6443/apis/extensions/v1beta1/namespaces/default/deployments/web-server/scale"
    );
    assert_eq!(plan.body.replicas, 7);
    assert_eq!(plan.body.metadata.name.as_deref(), Some("web-server"));
    assert_eq!(plan.body.metadata.namespace.as_deref(), Some("default"));
}

#[test]
fn scale_in_the_namespace_of_the_client() {
    let client: KubeClient<Deployment> = kube().namespace("prod").resources();
    let plan = client.scale("web", 0).unwrap();
    assert_eq!(
        plan.request.url,
        "https://10.0.0.1:6443/apis/extensions/v1beta1/namespaces/prod/deployments/web/scale"
    );
    assert_eq!(plan.body.replicas, 0);
    assert_eq!(plan.body.metadata.namespace.as_deref(), Some("prod"));
}

#[test]
fn scale_of_a_kind_that_cannot_be_scaled_is_a_configuration_error() {
    let err = kube().scale_request::<ConfigMap>("cfg", 1).err().unwrap();
    assert_eq!(err.kind(), ErrorKind::Config);
    assert_eq!(err.message(), "resources of this kind cannot be scaled");
    assert_eq!(err.context(), &vec!["failed to scale cfg".to_string()]);
}

#[test]
fn scale_without_a_namespace_is_a_configuration_error() {
    let err = kube().namespace("ns1").scale_request::<Node>("n", 1).err().unwrap();
    assert_eq!(err.kind(), ErrorKind::Config);
    assert_eq!(err.message(), "a namespace is necessary to scale a resource");
    assert_eq!(err.describe(), "failed to scale n: a namespace is necessary to scale a resource");
}

#[test]
fn typed_clients_form_the_requests_of_their_kind() {
    let kube = kube();
    let secrets = kube.secrets();
    assert_eq!(
        secrets.exists_request("my-secret").unwrap().url,
        "https://10.0.0.1:6443/api/v1/namespaces/default/secrets/my-secret"
    );
    assert_eq!(
        secrets.get_request("my-secret").unwrap().url,
        "https://10.0.0.1:6443/api/v1/namespaces/default/secrets/my-secret"
    );
    let maps = kube.config_maps().namespace("ns1");
    assert_eq!(
        maps.create_request().unwrap().url,
        "https://10.0.0.1:6443/api/v1/namespaces/ns1/configmaps"
    );
    assert_eq!(
        maps.delete_request("cfg").unwrap().url,
        "https://10.0.0.1:6443/api/v1/namespaces/ns1/configmaps/cfg"
    );
    assert_eq!(
        maps.list_request(None).unwrap().url,
        "https://10.0.0.1:6443/api/v1/namespaces/ns1/configmaps"
    );
    assert_eq!(maps.kube().get_ns::<ConfigMap>(), Some("ns1"));
    let nodes: KubeClient<Node> = kube.namespace("ns1").resources();
    assert_eq!(nodes.list_request(None).unwrap().url, "https://10.0.0.1:6443/api/v1/nodes");
}

#[test]
fn namespace_of_a_client_leaves_the_cluster() {
    let kube = kube();
    let other = kube.namespace("ns1");
    assert_eq!(other.low_level().base_url(), kube.low_level().base_url());
    assert_eq!(kube.get_ns::<Pod>(), Some("default"));
    assert_eq!(kube.copy().low_level().base_url(), "https://10.0.0.1:6443");
}
