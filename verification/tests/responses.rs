use kubeclient::clients::low_level::{
    body_outcome, delete_outcome, document_outcome, exists_outcome, failure_of, is_healthy,
    is_success, list_items, list_outcome, KubeLowLevel, Method, Request, Response,
};
use kubeclient::clients::routes::{KindRoute, ResourceRoute};
use kubeclient::errors::ErrorKind;
use kubeclient::json::JsonKind;
use kubeclient::resources::status::{Status, StatusFields};

const NOT_FOUND_BODY: &str = r#"{"kind":"Status","apiVersion":"v1","metadata":{},"status":"Failure","message":"pods \"web\" not found","reason":"NotFound","details":{"name":"web","kind":"pods"},"code":404}"#;

fn get(url: &str) -> Request {
    Request::new(Method::Get, url.to_string())
}

fn response(status: u16, body: &str) -> Response {
    Response { status, body: body.as_bytes().to_vec() }
}

#[test]
fn success_is_the_2xx_range() {
    assert!(!is_success(199));
    assert!(is_success(200));
    assert!(is_success(201));
    assert!(is_success(299));
    assert!(!is_success(300));
    assert!(!is_success(404));
    assert!(!is_success(0));
}

#[test]
fn status_is_decoded_from_its_fields() {
    let status = Status::decode(NOT_FOUND_BODY.as_bytes()).unwrap();
    assert_eq!(status.kind, "Status");
    assert_eq!(status.api_version, "v1");
    assert_eq!(status.status, "Failure");
    assert_eq!(status.message, "pods \"web\" not found");
    assert_eq!(status.metadata.name, None);
}

#[test]
fn status_metadata_is_read_where_present() {
    let body = r#"{"kind":"Status","apiVersion":"v1","metadata":{"name":"n","namespace":"ns"},"status":"Failure","message":"m"}"#;
    let status = Status::decode(body.as_bytes()).unwrap();
    assert_eq!(status.metadata.name.as_deref(), Some("n"));
    assert_eq!(status.metadata.namespace.as_deref(), Some("ns"));
}

#[test]
fn status_that_is_not_json_is_a_decode_error() {
    let err = Status::decode(b"<html>502</html>").unwrap_err();
    assert_eq!(err.kind(), ErrorKind::Decode);
    assert_eq!(err.message(), "expected value at line 1 column 1");
}

#[test]
fn status_with_a_missing_field_is_a_decode_error() {
    let cases = [
        (r#"{"apiVersion":"v1","status":"Failure","message":"m"}"#, "the status holds no string `kind`"),
        (r#"{"kind":"Status","status":"Failure","message":"m"}"#, "the status holds no string `apiVersion`"),
        (r#"{"kind":"Status","apiVersion":"v1","message":"m"}"#, "the status holds no string `status`"),
        (r#"{"kind":"Status","apiVersion":"v1","status":"Failure"}"#, "the status holds no string `message`"),
        (r#"{"kind":"Status","apiVersion":"v1","status":"Failure","message":5}"#, "the status holds no string `message`"),
        (r#"{}"#, "the status holds no string `kind`"),
    ];
    for (body, message) in cases {
        let err = Status::decode(body.as_bytes()).unwrap_err();
        assert_eq!(err.kind(), ErrorKind::Decode);
        assert_eq!(err.message(), message);
    }
}

#[test]
fn status_from_fields() {
    let status = Status::from_fields(StatusFields {
        kind: Some("Status".to_string()),
        api_version: Some("v1".to_string()),
        metadata: JsonKind::Object,
        name: Ok(None),
        namespace: Ok(Some("ns".to_string())),
        status: Some("Failure".to_string()),
        message: Some("boom".to_string()),
    })
    .unwrap();
    assert_eq!(status.message, "boom");
    assert_eq!(status.metadata.namespace.as_deref(), Some("ns"));
    let err = Status::from_fields(StatusFields {
        kind: Some("Status".to_string()),
        api_version: None,
        metadata: JsonKind::Absent,
        name: Ok(None),
        namespace: Ok(None),
        status: None,
        message: None,
    })
    .unwrap_err();
    assert_eq!(err.message(), "the status holds no string `apiVersion`");
    let err = Status::from_fields(StatusFields {
        kind: Some("Status".to_string()),
        api_version: Some("v1".to_string()),
        metadata: JsonKind::Absent,
        name: Ok(None),
        namespace: Ok(None),
        status: Some("Failure".to_string()),
        message: Some("boom".to_string()),
    })
    .unwrap_err();
    assert_eq!(err.kind(), ErrorKind::Decode);
    assert_eq!(err.message(), "the status holds no object `metadata`");
}

#[test]
fn status_without_metadata_is_a_decode_error() {
    let bodies = [
        r#"{"kind":"Status","apiVersion":"v1","status":"Failure","message":"m"}"#,
        r#"{"kind":"Status","apiVersion":"v1","metadata":null,"status":"Failure","message":"m"}"#,
        r#"{"kind":"Status","apiVersion":"v1","metadata":"x","status":"Failure","message":"m"}"#,
        r#"{"kind":"Status","apiVersion":"v1","metadata":[],"status":"Failure","message":"m"}"#,
    ];
    for body in bodies {
        let err = Status::decode(body.as_bytes()).unwrap_err();
        assert_eq!(err.kind(), ErrorKind::Decode);
        assert_eq!(err.message(), "the status holds no object `metadata`");
        assert_eq!(
            err.context(),
            &vec!["failed to decode the error response as a status".to_string()]
        );
        let request = get("https://h/x");
        let err = body_outcome(&request, response(500, body)).unwrap_err();
        assert_eq!(err.kind(), ErrorKind::Decode);
        let err = exists_outcome(&request, &response(500, body)).unwrap_err();
        assert_eq!(err.kind(), ErrorKind::Decode);
    }
}

#[test]
fn status_with_metadata_of_the_wrong_type_is_a_decode_error() {
    let body = r#"{"kind":"Status","apiVersion":"v1","metadata":{"name":5},"status":"Failure","message":"m"}"#;
    let err = Status::decode(body.as_bytes()).unwrap_err();
    assert_eq!(err.message(), "the status holds a `metadata.name` that is no string");
    let body = r#"{"kind":"Status","apiVersion":"v1","metadata":{"namespace":{}},"status":"Failure","message":"m"}"#;
    let err = Status::decode(body.as_bytes()).unwrap_err();
    assert_eq!(err.message(), "the status holds a `metadata.namespace` that is no string");
    let body = r#"{"kind":"Status","apiVersion":"v1","metadata":{"name":null},"status":"Failure","message":"m"}"#;
    let status = Status::decode(body.as_bytes()).unwrap();
    assert_eq!(status.metadata.name, None);
}

#[test]
fn failure_carries_the_message_of_the_server() {
    let err = failure_of(&get("https://h/x"), NOT_FOUND_BODY.as_bytes());
    assert_eq!(err.kind(), ErrorKind::Api);
    assert_eq!(err.message(), "pods \"web\" not found");
    assert_eq!(err.context(), &vec!["failed to GET https://h/x".to_string()]);
}

#[test]
fn exists_is_false_on_404() {
    let request = get("https://h/api/v1/namespaces/default/pods/web");
    assert_eq!(exists_outcome(&request, &response(404, NOT_FOUND_BODY)).unwrap(), false);
    assert_eq!(exists_outcome(&request, &response(404, "")).unwrap(), false);
}

#[test]
fn exists_is_true_on_2xx_whatever_the_body() {
    let request = get("https://h/x");
    assert_eq!(exists_outcome(&request, &response(200, "{}")).unwrap(), true);
    assert_eq!(exists_outcome(&request, &response(200, "not json")).unwrap(), true);
    assert_eq!(exists_outcome(&request, &response(204, "")).unwrap(), true);
}

#[test]
fn exists_fails_on_other_statuses() {
    let request = get("https://h/x");
    let body = r#"{"kind":"Status","apiVersion":"v1","metadata":{},"status":"Failure","message":"forbidden: User \"u\" cannot get pods","code":403}"#;
    let err = exists_outcome(&request, &response(403, body)).unwrap_err();
    assert_eq!(err.kind(), ErrorKind::Api);
    assert_eq!(err.message(), "forbidden: User \"u\" cannot get pods");
    assert_eq!(err.context(), &vec!["failed to GET https://h/x".to_string()]);
    for status in [100u16, 301, 400, 401, 405, 500, 503] {
        assert!(exists_outcome(&request, &response(status, body)).is_err());
    }
}

#[test]
fn exists_with_a_malformed_error_body_is_a_decode_error() {
    let request = get("https://h/x");
    let err = exists_outcome(&request, &response(500, "internal error")).unwrap_err();
    assert_eq!(err.kind(), ErrorKind::Decode);
    assert_eq!(
        err.context(),
        &vec![
            "failed to decode the error response as a status".to_string(),
            "failed to GET https://h/x".to_string(),
        ]
    );
}

#[test]
fn get_of_a_missing_resource_is_an_api_error() {
    let request = get("https://h/api/v1/namespaces/default/pods/web");
    let err = body_outcome(&request, response(404, NOT_FOUND_BODY)).unwrap_err();
    assert_eq!(err.kind(), ErrorKind::Api);
    assert_eq!(err.message(), "pods \"web\" not found");
    assert_eq!(
        err.describe(),
        "failed to GET https://h/api/v1/namespaces/default/pods/web: pods \"web\" not found"
    );
    let err = document_outcome(&request, &response(404, NOT_FOUND_BODY)).unwrap_err();
    assert_eq!(err.kind(), ErrorKind::Api);
    assert_eq!(err.message(), "pods \"web\" not found");
}

#[test]
fn body_of_a_2xx_response_is_handed_on() {
    let request = get("https://h/x");
    assert_eq!(body_outcome(&request, response(200, "ok")).unwrap(), b"ok".to_vec());
    assert_eq!(body_outcome(&request, response(201, "")).unwrap(), Vec::<u8>::new());
}

#[test]
fn document_of_a_2xx_response_is_parsed() {
    let request = get("https://h/x");
    let doc = document_outcome(&request, &response(200, r#"{"kind":"Pod","n":[1,2]}"#)).unwrap();
    assert_eq!(doc["kind"], "Pod");
    assert_eq!(doc["n"][1], 2);
}

#[test]
fn malformed_body_of_a_2xx_response_is_a_decode_error() {
    let request = Request::new(Method::Post, "https://h/x".to_string());
    let err = document_outcome(&request, &response(200, "{")).unwrap_err();
    assert_eq!(err.kind(), ErrorKind::Decode);
    assert_eq!(err.context(), &vec!["failed to POST https://h/x".to_string()]);
}

#[test]
fn delete_succeeds_on_2xx_only() {
    let request = Request::new(Method::Delete, "https://h/x".to_string());
    assert!(delete_outcome(&request, &response(200, "{}")).is_ok());
    let err = delete_outcome(&request, &response(404, NOT_FOUND_BODY)).unwrap_err();
    assert_eq!(err.kind(), ErrorKind::Api);
    assert_eq!(err.message(), "pods \"web\" not found");
    assert_eq!(err.context(), &vec!["failed to DELETE https://h/x".to_string()]);
}

#[test]
fn list_items_come_in_the_order_of_the_server() {
    let request = get("https://h/x");
    let body = r#"{"kind":"PodList","items":[{"metadata":{"name":"c"}},{"metadata":{"name":"a"}},{"metadata":{"name":"b"}}],"metadata":{"resourceVersion":"9"}}"#;
    let items = list_outcome(&request, &response(200, body)).unwrap();
    assert_eq!(
        items,
        vec![
            r#"{"metadata":{"name":"c"}}"#.to_string(),
            r#"{"metadata":{"name":"a"}}"#.to_string(),
            r#"{"metadata":{"name":"b"}}"#.to_string(),
        ]
    );
}

#[test]
fn list_of_nothing_is_empty() {
    let doc: serde_json::Value = serde_json::from_str(r#"{"items":[]}"#).unwrap();
    assert!(list_items(&doc).unwrap().is_empty());
}

#[test]
fn list_without_items_is_a_decode_error() {
    let request = get("https://h/x");
    for body in [r#"{"kind":"PodList"}"#, r#"{"items":{"a":1}}"#, r#"{"items":null}"#] {
        let err = list_outcome(&request, &response(200, body)).unwrap_err();
        assert_eq!(err.kind(), ErrorKind::Decode);
        assert_eq!(err.message(), "the list holds no array `items`");
        assert_eq!(
            err.context(),
            &vec!["failed to unwrap the list".to_string(), "failed to GET https://h/x".to_string()]
        );
    }
}

#[test]
fn list_on_a_failure_status_is_the_error_of_the_response() {
    let request = get("https://h/x");
    let err = list_outcome(&request, &response(404, NOT_FOUND_BODY)).unwrap_err();
    assert_eq!(err.kind(), ErrorKind::Api);
}

#[test]
fn healthy_is_the_body_ok() {
    assert!(is_healthy(b"ok"));
    assert!(!is_healthy(b"ok\n"));
    assert!(!is_healthy(b"OK"));
    assert!(!is_healthy(b""));
    assert!(!is_healthy(b"no"));
}

#[test]
fn transport_and_decode_failures_carry_the_request() {
    let request = Request::new(Method::Put, "https://h/x".to_string());
    let err = request.transport_failure("connection refused");
    assert_eq!(err.kind(), ErrorKind::Transport);
    assert_eq!(err.describe(), "failed to PUT https://h/x: connection refused");
    let err = request.decode_failure("missing field `spec`");
    assert_eq!(err.kind(), ErrorKind::Decode);
    assert_eq!(err.describe(), "failed to PUT https://h/x: missing field `spec`");
    assert_eq!(request.copy().url, request.url);
}

#[test]
fn low_level_requests() {
    let client = KubeLowLevel::new("https://10.0.0.1:6443");
    assert_eq!(client.base_url(), "https://10.0.0.1:6443");
    let health = client.health_request().unwrap();
    assert_eq!(health.method, Method::Get);
    assert_eq!(health.url, "https://10.0.0.1:6443/healthz");
    let check = client.check_request("version").unwrap();
    assert_eq!(check.url, "https://10.0.0.1:6443/version");

    let mut resource = ResourceRoute::new("/api/v1", "secrets", "my-secret");
    resource.namespace("default");
    let url = "https://10.0.0.1:6443/api/v1/namespaces/default/secrets/my-secret";
    let request = client.exists_request(&resource).unwrap();
    assert_eq!((request.method, request.url.as_str()), (Method::Get, url));
    let request = client.get_request(&resource).unwrap();
    assert_eq!((request.method, request.url.as_str()), (Method::Get, url));
    let request = client.delete_request(&resource).unwrap();
    assert_eq!((request.method, request.url.as_str()), (Method::Delete, url));
    let request = client.replace_request(&resource).unwrap();
    assert_eq!((request.method, request.url.as_str()), (Method::Put, url));

    let mut kind = KindRoute::new("/api/v1", "secrets");
    kind.namespace("default");
    let url = "https://10.0.0.1:6443/api/v1/namespaces/default/secrets";
    let request = client.list_request(&kind).unwrap();
    assert_eq!((request.method, request.url.as_str()), (Method::Get, url));
    let request = client.apply_request(&kind).unwrap();
    assert_eq!((request.method, request.url.as_str()), (Method::Post, url));
}

#[test]
fn low_level_request_with_a_bad_base_url() {
    let client = KubeLowLevel::new("10.0.0.1:6443/nothing");
    let route = KindRoute::new("/api/v1", "pods");
    let err = client.list_request(&route).unwrap_err();
    assert_eq!(err.kind(), ErrorKind::Url);
    assert!(client.health_request().is_err());
}
