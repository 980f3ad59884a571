use kubeclient::clients::apply::{ApplyPlan, ApplyStep, DirectoryApply, Manifest, ManifestFormat};
use kubeclient::clients::low_level::{
    body_outcome, exists_outcome, KubeLowLevel, Method, Request, Response,
};
use kubeclient::prelude::Kubernetes;
use kubeclient::resources::config_map::ConfigMap;
use std::collections::HashMap;

/// A server that keeps resources under their URLs and counts what it is
/// asked to create.
struct Server {
    store: HashMap<String, Vec<u8>>,
    created: usize,
}

impl Server {
    fn new() -> Server {
        Server { store: HashMap::new(), created: 0 }
    }

    fn get(&self, request: &Request) -> Response {
        assert_eq!(request.method, Method::Get);
        match self.store.get(&request.url) {
            Some(body) => Response { status: 200, body: body.clone() },
            None => Response {
                status: 404,
                body: br#"{"kind":"Status","apiVersion":"v1","metadata":{},"status":"Failure","message":"not found","code":404}"#.to_vec(),
            },
        }
    }

    fn create(&mut self, request: &Request, resource_url: &str, body: &str) -> Response {
        assert_eq!(request.method, Method::Post);
        self.created += 1;
        let mut doc: serde_json::Value = serde_json::from_str(body).unwrap();
        doc["metadata"]["uid"] = serde_json::Value::String(format!("uid-{}", self.created));
        let stored = doc.to_string().into_bytes();
        self.store.insert(resource_url.to_string(), stored.clone());
        Response { status: 201, body: stored }
    }
}

fn apply(server: &mut Server, text: &str) -> serde_json::Value {
    let manifest = Manifest::parse(text.as_bytes(), ManifestFormat::Json).unwrap();
    let plan = ApplyPlan::new("https://10.0.0.1:6443", &manifest).unwrap();
    let found = server.get(plan.lookup());
    match plan.after_lookup(&found) {
        ApplyStep::Done(outcome) => outcome.unwrap(),
        ApplyStep::Create { request, document } => {
            let answer = server.create(&request, &plan.lookup().url, &document);
            plan.after_create(&answer).unwrap()
        }
    }
}

const MANIFESTS: [&str; 3] = [
    r#"{"apiVersion":"v1","kind":"ConfigMap","metadata":{"name":"cfg1","namespace":"ns1"},"data":{"k":"v"}}"#,
    r#"{"apiVersion":"v1","kind":"Secret","metadata":{"name":"s1"},"data":{"p":"YQ=="}}"#,
    r#"{"apiVersion":"apps/v1","kind":"Deployment","metadata":{"name":"web","namespace":"ns1"}}"#,
];

#[test]
fn applying_a_directory_twice_changes_nothing_the_second_time() {
    let mut server = Server::new();
    let first: Vec<serde_json::Value> = MANIFESTS.iter().map(|m| apply(&mut server, m)).collect();
    assert_eq!(server.created, 3);
    let held = server.store.clone();
    let second: Vec<serde_json::Value> = MANIFESTS.iter().map(|m| apply(&mut server, m)).collect();
    assert_eq!(server.created, 3);
    assert_eq!(server.store, held);
    assert_eq!(first, second);
    assert_eq!(second[0]["metadata"]["uid"], "uid-1");
}

#[test]
fn applying_never_replaces_what_the_server_holds() {
    let mut server = Server::new();
    let url = "https://10.0.0.1:6443/api/v1/namespaces/ns1/configmaps/cfg1";
    let existing = r#"{"apiVersion":"v1","data":{"k":"other"},"kind":"ConfigMap","metadata":{"name":"cfg1","namespace":"ns1"}}"#;
    server.store.insert(url.to_string(), existing.as_bytes().to_vec());
    let outcome = apply(&mut server, MANIFESTS[0]);
    assert_eq!(server.created, 0);
    assert_eq!(outcome["data"]["k"], "other");
    assert_eq!(server.store[url], existing.as_bytes().to_vec());
}

#[test]
fn directory_run_over_a_server() {
    let mut server = Server::new();
    let mut run = DirectoryApply::new();
    for (i, manifest) in MANIFESTS.iter().enumerate() {
        let outcome = apply(&mut server, manifest);
        run = run.record(&format!("dir/{}.json", i), Ok(outcome)).ok().unwrap();
    }
    let resources = run.finish();
    assert_eq!(resources.len(), 3);
    assert_eq!(resources[1]["metadata"]["name"], "s1");
}

#[test]
fn create_then_get_returns_the_identity_of_what_was_created() {
    let mut server = Server::new();
    let kube = Kubernetes::new(KubeLowLevel::new("https://10.0.0.1:6443")).namespace("ns1");
    let body = r#"{"data":{"k":"v"},"metadata":{"name":"cfg1","namespace":"ns1"},"kind":"ConfigMap"}"#;

    let get = kube.get_request::<ConfigMap>("cfg1").unwrap();
    assert_eq!(exists_outcome(&get, &server.get(&get)).unwrap(), false);

    let create = kube.create_request::<ConfigMap>().unwrap();
    let answer = server.create(&create, &get.url, body);
    let created = body_outcome(&create, answer).unwrap();

    assert_eq!(exists_outcome(&get, &server.get(&get)).unwrap(), true);
    let fetched = body_outcome(&get, server.get(&get)).unwrap();
    assert_eq!(fetched, created);
    let fetched: serde_json::Value = serde_json::from_slice(&fetched).unwrap();
    assert_eq!(fetched["kind"], "ConfigMap");
    assert_eq!(fetched["metadata"]["name"], "cfg1");
    assert_eq!(fetched["metadata"]["namespace"], "ns1");
}
