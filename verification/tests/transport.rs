use bgg_client::error::{Error, HttpFailure};
use bgg_client::request::RequestDescriptor;
use bgg_client::transport::{run_attempts, AttemptOutcome, RunOutcome};
use bgg_client::RawResponse;

fn response(status: u16, body: &str) -> AttemptOutcome {
    AttemptOutcome::Response(RawResponse { status, body: body.to_string() })
}

#[test]
fn send_request() {
    let descriptor = RequestDescriptor::build("some_endpoint", &[]);
    assert_eq!(descriptor.request_url("http://127.0.0.1:1234"), "http://127.0.0.1:1234/some_endpoint");

    let script = vec![response(200, "hello there")];
    let report = run_attempts(&script);
    assert_eq!(report.attempts, 1);
    assert!(report.delays.is_empty());
    match report.outcome {
        RunOutcome::Success(raw) => {
            assert_eq!(raw.status, 200);
            assert!(raw.body == "hello there");
        }
        other => panic!("expected success, got {:?}", other),
    }
}

#[test]
fn send_failed_request() {
    let descriptor = RequestDescriptor::build("some_endpoint", &[]);
    assert_eq!(descriptor.endpoint, "some_endpoint");

    let script = vec![response(500, "")];
    let report = run_attempts(&script);
    assert_eq!(report.attempts, 1);
    assert!(report.delays.is_empty());
    assert_eq!(
        report.outcome,
        RunOutcome::Failed(Error::HttpError(HttpFailure::Status(500)))
    );
}

#[test]
fn send_request_202_retries() {
    let script = vec![
        response(202, ""),
        response(202, ""),
        response(202, ""),
        response(202, ""),
        response(202, ""),
        response(202, ""),
    ];
    let report = run_attempts(&script);
    assert_eq!(report.attempts, 5);
    assert_eq!(report.delays, vec![200, 400, 800, 1600]);
    assert_eq!(report.outcome, RunOutcome::Failed(Error::MaxRetryError(4)));
}

#[test]
fn transport_failure_is_terminal() {
    let script = vec![
        AttemptOutcome::Failure("connection refused".to_string()),
        response(200, "never reached"),
    ];
    let report = run_attempts(&script);
    assert_eq!(report.attempts, 1);
    assert!(report.delays.is_empty());
    assert_eq!(
        report.outcome,
        RunOutcome::Failed(Error::HttpError(HttpFailure::Transport(
            "connection refused".to_string()
        )))
    );
}

#[test]
fn accepted_then_ready_succeeds() {
    let script = vec![response(202, ""), response(202, ""), response(200, "data")];
    let report = run_attempts(&script);
    assert_eq!(report.attempts, 3);
    assert_eq!(report.delays, vec![200, 400]);
    match report.outcome {
        RunOutcome::Success(raw) => assert!(raw.body == "data"),
        other => panic!("expected success, got {:?}", other),
    }
}

#[test]
fn non_error_status_is_success() {
    let script = vec![response(302, "moved")];
    let report = run_attempts(&script);
    match report.outcome {
        RunOutcome::Success(raw) => assert_eq!(raw.status, 302),
        other => panic!("expected success, got {:?}", other),
    }
}

#[test]
fn script_shorter_than_retries_is_exhausted() {
    let script = vec![response(202, ""), response(202, "")];
    let report = run_attempts(&script);
    assert_eq!(report.attempts, 2);
    assert_eq!(report.delays, vec![200, 400]);
    assert_eq!(report.outcome, RunOutcome::Exhausted);
}

#[test]
fn repeated_calls_are_independent() {
    let script = vec![response(202, ""), response(200, "ready")];
    let first = run_attempts(&script);
    // A run with different outcomes between the two calls must not leak
    // retry state into the second call.
    let other = vec![response(202, ""), response(202, ""), response(202, "")];
    let _ = run_attempts(&other);
    let second = run_attempts(&script);
    assert_eq!(first, second);
    assert_eq!(first.delays, vec![200]);
    match second.outcome {
        RunOutcome::Success(raw) => assert!(raw.body == "ready"),
        other => panic!("expected success, got {:?}", other),
    }
}
