use ruler_sync::{
    check_response_202, remove_ruler_rule, update_ruler_rule, HttpMethod, RuleGroup, RulerError,
    RulerResponse,
};

fn received(status: u16) -> RulerResponse {
    RulerResponse::Received { status, body: Some(String::from("ok")) }
}

fn group(name: &str) -> RuleGroup {
    RuleGroup { name: name.to_string(), rules: String::from("- record: x\n  expr: up\n") }
}

#[test]
fn accepted_status_is_success() {
    assert_eq!(check_response_202(&received(202)), Ok(()));
}

#[test]
fn status_200_is_fatal() {
    assert_eq!(
        check_response_202(&received(200)),
        Err(RulerError::UnexpectedStatus { status: 200 })
    );
}

#[test]
fn status_201_is_fatal() {
    assert_eq!(
        check_response_202(&received(201)),
        Err(RulerError::UnexpectedStatus { status: 201 })
    );
}

#[test]
fn status_404_is_fatal() {
    assert_eq!(
        check_response_202(&received(404)),
        Err(RulerError::UnexpectedStatus { status: 404 })
    );
}

#[test]
fn status_500_is_fatal() {
    assert_eq!(
        check_response_202(&received(500)),
        Err(RulerError::UnexpectedStatus { status: 500 })
    );
}

#[test]
fn transport_failure_is_reported() {
    assert_eq!(
        check_response_202(&RulerResponse::TransportFailed),
        Err(RulerError::TransportFailure)
    );
}

#[test]
fn unreadable_body_is_not_success() {
    let r = RulerResponse::Received { status: 202, body: None };
    assert_eq!(check_response_202(&r), Err(RulerError::TransportFailure));
}

#[test]
fn push_posts_to_namespace_store_with_tenant_header() {
    let req = update_ruler_rule(
        &String::from("http://ruler:8080/"),
        &String::from("team-a"),
        &String::from("monitoring"),
        Some(String::from("name: latency_p99\n")),
    )
    .unwrap();
    assert_eq!(req.method, HttpMethod::Post);
    assert_eq!(req.url, "http://ruler:8080/api/v1/rules/monitoring");
    assert_eq!(req.header_name, "X-Scope-OrgID");
    assert_eq!(req.header_value, "team-a");
    assert_eq!(req.body, Some(String::from("name: latency_p99\n")));
}

#[test]
fn push_without_encoding_sends_nothing() {
    let r = update_ruler_rule(
        &String::from("http://ruler:8080/"),
        &String::from("team-a"),
        &String::from("monitoring"),
        None,
    );
    assert_eq!(r, Err(RulerError::EncodingFailure));
}

#[test]
fn remove_deletes_the_named_group() {
    let req = remove_ruler_rule(
        &String::from("http://ruler:8080/"),
        &String::from("team-b"),
        &String::from("infra"),
        &group("cpu_alert"),
    );
    assert_eq!(req.method, HttpMethod::Delete);
    assert_eq!(req.url, "http://ruler:8080/api/v1/rules/infra/cpu_alert");
    assert_eq!(req.header_name, "X-Scope-OrgID");
    assert_eq!(req.header_value, "team-b");
    assert_eq!(req.body, None);
}

#[test]
fn unreadable_body_with_failing_status_is_fatal() {
    let r = RulerResponse::Received { status: 500, body: None };
    assert_eq!(check_response_202(&r), Err(RulerError::UnexpectedStatus { status: 500 }));
}
