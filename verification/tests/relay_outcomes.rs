use http_relay::outcome::{RelayFailure, RelayOutcome};
use http_relay::relay::{
    classify_error, classify_response, conclude, status_is_success, RelayResponse, TransportError,
};

fn response(status: u16, body: &str) -> RelayResponse {
    RelayResponse { status, body: body.to_string() }
}

fn failure(timed_out: bool, description: &str) -> TransportError {
    TransportError { timed_out, description: description.to_string() }
}

#[test]
fn success_returns_body_unchanged() {
    let body = "{\"ok\": true, \"text\": \"h\u{e9}llo \u{1f600}\"}\n";
    let outcome = conclude(Ok(response(200, body)));
    assert_eq!(outcome, RelayOutcome::Success(body.to_string()));
    assert_eq!(outcome.into_result(), Ok(body.to_string()));
}

#[test]
fn every_success_status_returns_body() {
    let mut status: u16 = 200;
    while status <= 299 {
        assert!(status_is_success(status));
        assert_eq!(conclude(Ok(response(status, "payload"))).into_result(), Ok("payload".to_string()));
        status += 1;
    }
}

#[test]
fn success_with_empty_body() {
    assert_eq!(conclude(Ok(response(204, ""))).into_result(), Ok(String::new()));
}

#[test]
fn refused_status_reports_code_and_body() {
    let outcome = conclude(Ok(response(404, "not found")));
    assert_eq!(
        outcome,
        RelayOutcome::Failure(RelayFailure::Status { code: 404, body: "not found".to_string() })
    );
    let message = outcome.into_result().unwrap_err();
    assert_eq!(message, "HTTP 404: not found");
    assert!(message.contains("404"));
    assert!(message.ends_with("not found"));
}

#[test]
fn refused_status_keeps_json_body_raw() {
    let body = "{\"error\": {\"code\": 7, \"message\": \"bad\"}}";
    assert_eq!(
        conclude(Ok(response(500, body))).into_result(),
        Err(format!("HTTP 500: {}", body))
    );
}

#[test]
fn refused_status_with_empty_body() {
    assert_eq!(conclude(Ok(response(503, ""))).into_result(), Err("HTTP 503: ".to_string()));
}

#[test]
fn status_range_boundaries() {
    assert!(!status_is_success(199));
    assert!(status_is_success(200));
    assert!(status_is_success(299));
    assert!(!status_is_success(300));
    assert_eq!(conclude(Ok(response(199, "a"))).into_result(), Err("HTTP 199: a".to_string()));
    assert_eq!(conclude(Ok(response(200, "a"))).into_result(), Ok("a".to_string()));
    assert_eq!(conclude(Ok(response(299, "a"))).into_result(), Ok("a".to_string()));
    assert_eq!(conclude(Ok(response(300, "a"))).into_result(), Err("HTTP 300: a".to_string()));
}

#[test]
fn extreme_status_values() {
    assert_eq!(conclude(Ok(response(0, "z"))).into_result(), Err("HTTP 0: z".to_string()));
    assert_eq!(conclude(Ok(response(65535, "z"))).into_result(), Err("HTTP 65535: z".to_string()));
}

#[test]
fn timeout_message_is_fixed() {
    let outcome = conclude(Err(failure(true, "error sending request: operation timed out")));
    assert_eq!(outcome, RelayOutcome::Failure(RelayFailure::Timeout));
    assert_eq!(outcome.into_result(), Err("Request timeout after 30 seconds".to_string()));
    assert_eq!(
        conclude(Err(failure(true, ""))).into_result(),
        Err("Request timeout after 30 seconds".to_string())
    );
}

#[test]
fn transport_failure_is_passed_on_verbatim() {
    let text = "error sending request: dns error: failed to lookup address information";
    let outcome = conclude(Err(failure(false, text)));
    assert_eq!(outcome, RelayOutcome::Failure(RelayFailure::Transport(text.to_string())));
    let message = outcome.into_result().unwrap_err();
    assert_eq!(message, text);
    assert!(!message.is_empty());
    assert_ne!(message, "Request timeout after 30 seconds");
}

#[test]
fn body_read_failure_is_a_transport_failure() {
    let text = "error decoding response body";
    assert_eq!(classify_error(failure(false, text)).into_result(), Err(text.to_string()));
}

#[test]
fn classify_response_matches_conclude() {
    assert_eq!(classify_response(response(201, "made")), conclude(Ok(response(201, "made"))));
    assert_eq!(classify_response(response(418, "tea")), conclude(Ok(response(418, "tea"))));
}

#[test]
fn failure_messages_by_kind() {
    assert_eq!(RelayFailure::Timeout.message(), "Request timeout after 30 seconds");
    assert_eq!(RelayFailure::Transport("connection refused".to_string()).message(), "connection refused");
    assert_eq!(
        RelayFailure::Status { code: 401, body: "denied".to_string() }.message(),
        "HTTP 401: denied"
    );
}

#[test]
fn outcome_knows_its_side() {
    assert!(RelayOutcome::Success("x".to_string()).is_success());
    assert!(!RelayOutcome::Failure(RelayFailure::Timeout).is_success());
    assert!(!conclude(Ok(response(302, "moved"))).is_success());
}

#[test]
fn outcomes_of_separate_requests_do_not_mix() {
    let reports = vec![
        Ok(response(200, "first")),
        Ok(response(404, "second")),
        Err(failure(true, "third")),
        Err(failure(false, "fourth")),
    ];
    let mut results: Vec<Result<String, String>> = Vec::new();
    for report in reports {
        results.push(conclude(report).into_result());
    }
    assert_eq!(
        results,
        vec![
            Ok("first".to_string()),
            Err("HTTP 404: second".to_string()),
            Err("Request timeout after 30 seconds".to_string()),
            Err("fourth".to_string()),
        ]
    );
}
