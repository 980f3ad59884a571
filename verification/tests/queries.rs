use kubeclient::resources::list_query::ListQuery;
use kubeclient::resources::pod::PodExec;

fn pair(name: &str, value: &str) -> (String, String) {
    (name.to_string(), value.to_string())
}

#[test]
fn default_list_query_has_no_pairs() {
    assert!(ListQuery::default().as_query_pairs().is_empty());
}

#[test]
fn list_query_with_one_option() {
    let query = ListQuery::default().label_selector("app=foo");
    assert_eq!(query.as_query_pairs(), vec![pair("labelSelector", "app=foo")]);
    let query = ListQuery::default().field_selector("metadata.name=web");
    assert_eq!(query.as_query_pairs(), vec![pair("fieldSelector", "metadata.name=web")]);
    let query = ListQuery::default().resource_version("1234");
    assert_eq!(query.as_query_pairs(), vec![pair("resourceVersion", "1234")]);
    let query = ListQuery::default().timeout_seconds(0);
    assert_eq!(query.as_query_pairs(), vec![pair("timeoutSeconds", "0")]);
}

#[test]
fn list_query_pairs_come_in_the_order_of_their_names() {
    let query = ListQuery::default()
        .timeout_seconds(60)
        .resource_version("7")
        .label_selector("a")
        .field_selector("b");
    assert_eq!(
        query.as_query_pairs(),
        vec![
            pair("fieldSelector", "b"),
            pair("labelSelector", "a"),
            pair("resourceVersion", "7"),
            pair("timeoutSeconds", "60"),
        ]
    );
}

#[test]
fn list_query_setters_leave_the_query_they_start_from() {
    let base = ListQuery::default().label_selector("a");
    let other = base.resource_version("9");
    assert_eq!(base.as_query_pairs(), vec![pair("labelSelector", "a")]);
    assert_eq!(
        other.as_query_pairs(),
        vec![pair("labelSelector", "a"), pair("resourceVersion", "9")]
    );
    assert_eq!(base.copy().as_query_pairs(), base.as_query_pairs());
}

#[test]
fn list_query_later_value_replaces_earlier() {
    let query = ListQuery::default().label_selector("a").label_selector("b");
    assert_eq!(query.as_query_pairs(), vec![pair("labelSelector", "b")]);
}

#[test]
fn list_query_timeout_is_decimal() {
    let query = ListQuery::default().timeout_seconds(u32::MAX);
    assert_eq!(query.as_query_pairs(), vec![pair("timeoutSeconds", "4294967295")]);
}

#[test]
fn default_pod_exec_has_no_pairs() {
    assert!(PodExec::default().as_query_pairs().is_empty());
}

#[test]
fn pod_exec_with_terminal_and_command() {
    let exec = PodExec::default()
        .tty()
        .command(vec!["sh".to_string(), "-c".to_string(), "date".to_string()]);
    assert_eq!(exec.as_query_pairs(), vec![pair("command", "sh -c date"), pair("tty", "true")]);
}

#[test]
fn pod_exec_with_an_empty_command() {
    let exec = PodExec::default().command(Vec::new());
    assert_eq!(exec.as_query_pairs(), vec![pair("command", "")]);
}
