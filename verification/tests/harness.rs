use dispatch_harness::dispatch::{begin, step, Action, Event, Stage};
use dispatch_harness::error::DispatchError;
use dispatch_harness::request::{Method, Request};
use dispatch_harness::response::RespBody;

fn finished(action: Action) -> Result<RespBody, DispatchError> {
    match action {
        Action::Finish(result) => result,
        other => panic!("the dispatch did not finish: {:?}", other),
    }
}

/// Runs one dispatch against a service that answers with `status` and `body`.
fn answered(request: Request, status: u16, body: &[u8]) -> Result<RespBody, DispatchError> {
    let (stage, action) = begin(request);
    assert!(matches!(action, Action::Send(_)));
    let (stage, action) = step(stage, Event::Responded { status });
    assert_eq!(action, Action::Drain);
    let (stage, action) = step(stage, Event::Drained { bytes: body.to_vec() });
    assert_eq!(stage, Stage::Completed);
    finished(action)
}

#[test]
fn get_request_has_method_path_and_no_body() {
    let request = Request::try_get("/32/Filip").expect("a well-formed target");
    assert_eq!(request.method(), Method::Get);
    assert_eq!(request.path(), "/32/Filip");
    assert_eq!(request.json(), &None);
}

#[test]
fn get_request_keeps_the_query() {
    let request = Request::try_get("/search?q=a%20b&page=2").expect("a well-formed target");
    assert_eq!(request.path(), "/search?q=a%20b&page=2");
}

#[test]
fn get_request_for_the_root() {
    let request = Request::try_get("/").expect("a well-formed target");
    assert_eq!(request.path(), "/");
}

#[test]
fn malformed_target_builds_no_get_request() {
    assert_eq!(Request::try_get(""), None);
    assert_eq!(Request::try_get("/has space"), None);
    assert_eq!(Request::try_get("/32/Filip\n"), None);
}

#[test]
fn post_request_carries_the_serialized_bytes_unchanged() {
    let bytes = r#"{"name":"Fi\"lip\\","tags":["a","é"]}"#.as_bytes().to_vec();
    let request = Request::try_post_json("/api/users", Ok(bytes.clone()))
        .expect("serialized payload")
        .expect("a well-formed target");
    assert_eq!(request.method(), Method::Post);
    assert_eq!(request.path(), "/api/users");
    assert_eq!(request.json(), &Some(bytes));
}

#[test]
fn post_request_with_an_empty_payload_still_has_a_body() {
    let request = Request::try_post_json("/api/users", Ok(Vec::new())).unwrap().unwrap();
    assert_eq!(request.method(), Method::Post);
    assert_eq!(request.json(), &Some(Vec::new()));
}

#[test]
fn malformed_target_builds_no_post_request() {
    let built = Request::try_post_json("/api users", Ok(b"{}".to_vec()));
    assert_eq!(built, Ok(None));
}

#[test]
fn serialization_failure_is_a_dispatch_error() {
    let built = Request::try_post_json("/api/users", Err("key must be a string".to_string()));
    let err = built.expect_err("no request for a payload that did not serialize");
    assert_eq!(err.cause, "Failed to serialize test data to json: key must be a string");
    assert_eq!(err, DispatchError::serialization("key must be a string"));
}

#[test]
fn serialization_failure_comes_before_the_target_is_looked_at() {
    let built = Request::try_post_json("not a target", Err("boom".to_string()));
    assert_eq!(built, Err(DispatchError::serialization("boom")));
}

#[test]
fn invocation_failure_names_its_cause() {
    let err = DispatchError::invocation("Timeout");
    assert_eq!(err.cause, "call_service_res failed: Timeout");
    assert_eq!(err.message(), "call_service_res failed: Timeout");
}

#[test]
fn invocation_failure_with_empty_detail() {
    assert_eq!(DispatchError::invocation("").message(), "call_service_res failed: ");
}

#[test]
fn capture_keeps_status_and_text() {
    let resp = RespBody::capture(200, b"Hello Filip! id:32");
    assert_eq!(resp.status, 200);
    assert_eq!(resp.body, "Hello Filip! id:32");
}

#[test]
fn capture_of_empty_body_is_empty_text() {
    let resp = RespBody::capture(404, b"");
    assert_eq!(resp.status, 404);
    assert_eq!(resp.body, "");
}

#[test]
fn capture_decodes_multibyte_text() {
    let resp = RespBody::capture(200, "Žluťoučký kůň 🐎".as_bytes());
    assert_eq!(resp.body, "Žluťoučký kůň 🐎");
}

#[test]
fn capture_substitutes_invalid_bytes() {
    let resp = RespBody::capture(200, b"Hello \xF0\x90\x80World");
    assert_eq!(resp.body, "Hello \u{FFFD}World");
}

#[test]
fn capture_substitutes_each_stray_byte() {
    let resp = RespBody::capture(200, b"\xFFa\xFE");
    assert_eq!(resp.body, "\u{FFFD}a\u{FFFD}");
}

#[test]
fn begin_asks_for_the_request_to_be_sent() {
    let request = Request::try_get("/32/Filip").unwrap();
    let (stage, action) = begin(request);
    assert_eq!(stage, Stage::Dispatched);
    match action {
        Action::Send(sent) => {
            assert_eq!(sent.method(), Method::Get);
            assert_eq!(sent.path(), "/32/Filip");
        }
        other => panic!("expected the request to be sent, got {:?}", other),
    }
}

#[test]
fn answered_dispatch_yields_status_and_body() {
    let request = Request::try_get("/32/Filip").unwrap();
    let resp = answered(request, 200, b"Hello Filip! id:32").expect("a response is no failure");
    assert_eq!(resp, RespBody { status: 200, body: "Hello Filip! id:32".to_string() });
}

#[test]
fn not_found_is_a_result_and_no_failure() {
    let request = Request::try_get("/32/Filip/Not").unwrap();
    let resp = answered(request, 404, b"").expect("a 404 is no failure");
    assert_eq!(resp.status, 404);
    assert_eq!(resp.body, "");
}

#[test]
fn every_error_status_is_a_result() {
    for status in [400u16, 401, 403, 404, 418, 500, 502, 503, 599] {
        let request = Request::try_get("/x").unwrap();
        let resp = answered(request, status, b"denied").expect("an error status is no failure");
        assert_eq!(resp.status, status);
        assert_eq!(resp.body, "denied");
    }
}

#[test]
fn post_dispatch_yields_status_and_body() {
    let request = Request::try_post_json("/api/users", Ok(br#"{"name":"Filip"}"#.to_vec()))
        .unwrap()
        .unwrap();
    let resp = answered(request, 200, b"Name is: Filip!").unwrap();
    assert_eq!(resp.status, 200);
    assert_eq!(resp.body, "Name is: Filip!");
}

#[test]
fn failed_call_is_reported_with_its_cause() {
    let request = Request::try_get("/secret").unwrap();
    let (stage, _) = begin(request);
    let (stage, action) = step(stage, Event::Failed { detail: "AuthenticationError".to_string() });
    assert_eq!(stage, Stage::Failed);
    let err = finished(action).expect_err("a failed call is a failure");
    assert_eq!(err.cause, "call_service_res failed: AuthenticationError");
}

#[test]
fn response_moves_on_to_draining() {
    let (stage, action) = step(Stage::Dispatched, Event::Responded { status: 302 });
    assert_eq!(stage, Stage::Draining { status: 302 });
    assert_eq!(action, Action::Drain);
}

#[test]
fn event_out_of_turn_changes_nothing() {
    let (stage, action) = step(Stage::Dispatched, Event::Drained { bytes: b"x".to_vec() });
    assert_eq!((stage, action), (Stage::Dispatched, Action::Idle));

    let draining = Stage::Draining { status: 200 };
    let (stage, action) = step(draining, Event::Responded { status: 500 });
    assert_eq!((stage, action), (draining, Action::Idle));
    let (stage, action) = step(draining, Event::Failed { detail: "late".to_string() });
    assert_eq!((stage, action), (draining, Action::Idle));
}

#[test]
fn finished_dispatch_reports_nothing_more() {
    for stage in [Stage::Completed, Stage::Failed] {
        let events = [
            Event::Responded { status: 200 },
            Event::Failed { detail: "again".to_string() },
            Event::Drained { bytes: b"more".to_vec() },
        ];
        for event in events {
            assert_eq!(step(stage, event), (stage, Action::Idle));
        }
    }
}

#[test]
fn identical_dispatches_yield_identical_results() {
    let first = answered(Request::try_get("/32/Filip").unwrap(), 200, b"Hello \xFF Filip");
    let second = answered(Request::try_get("/32/Filip").unwrap(), 200, b"Hello \xFF Filip");
    assert_eq!(first, second);
    assert_eq!(first.unwrap().body, "Hello \u{FFFD} Filip");
}

#[test]
fn identical_failures_yield_identical_errors() {
    let fail = |detail: &str| step(Stage::Dispatched, Event::Failed { detail: detail.to_string() });
    assert_eq!(fail("Overloaded"), fail("Overloaded"));
    assert_ne!(fail("Overloaded"), fail("Timeout"));
}
