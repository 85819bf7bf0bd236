use booth_organizer::errors::BoothClientError;
use booth_organizer::retry::{
    is_success_status, run_fetch, AttemptOutcome, NextStep, RetryState, MAX_RETRIES,
};

fn status(code: u16) -> AttemptOutcome<String> {
    AttemptOutcome::Status { code }
}

fn body(text: &str) -> AttemptOutcome<String> {
    AttemptOutcome::Body(text.to_string())
}

fn transport(message: &str) -> AttemptOutcome<String> {
    AttemptOutcome::Transport { message: message.to_string() }
}

#[test]
fn two_rate_limits_then_success() {
    let report = run_fetch(vec![status(429), status(429), body("hello")]);
    assert_eq!(report.result.unwrap(), "hello");
    assert_eq!(report.sleeps, vec![1000, 2000]);
    assert_eq!(report.attempts, 3);
}

#[test]
fn server_error_fails_at_once() {
    let report = run_fetch(vec![status(500), body("never read")]);
    assert!(matches!(report.result, Err(BoothClientError::HttpError { status: 500 })));
    assert!(report.sleeps.is_empty());
    assert_eq!(report.attempts, 1);
}

#[test]
fn not_found_fails_at_once() {
    let report = run_fetch(vec![status(404)]);
    assert!(matches!(report.result, Err(BoothClientError::HttpError { status: 404 })));
    assert!(report.sleeps.is_empty());
    assert_eq!(report.attempts, 1);
}

#[test]
fn three_rate_limits_exhaust_the_budget() {
    let report = run_fetch(vec![status(429), status(429), status(429), body("too late")]);
    assert!(matches!(report.result, Err(BoothClientError::RateLimited)));
    assert_eq!(report.sleeps, vec![1000, 2000, 4000]);
    assert_eq!(report.attempts, 3);
}

#[test]
fn transport_failures_back_off_but_not_after_the_last() {
    let report = run_fetch(vec![transport("a"), transport("b"), transport("c")]);
    match report.result {
        Err(BoothClientError::NetworkError { message }) => assert_eq!(message, "c"),
        other => panic!("unexpected: {:?}", other),
    }
    assert_eq!(report.sleeps, vec![500, 1000]);
    assert_eq!(report.attempts, 3);
}

#[test]
fn transport_failure_then_success() {
    let report = run_fetch(vec![transport("reset"), body("ok")]);
    assert_eq!(report.result.unwrap(), "ok");
    assert_eq!(report.sleeps, vec![500]);
    assert_eq!(report.attempts, 2);
}

#[test]
fn unreadable_body_is_tried_again_without_pause() {
    let unreadable = || AttemptOutcome::<String>::BodyUnreadable { message: "cut".to_string() };
    let report = run_fetch(vec![unreadable(), body("ok")]);
    assert_eq!(report.result.unwrap(), "ok");
    assert!(report.sleeps.is_empty());
    assert_eq!(report.attempts, 2);

    let report = run_fetch(vec![unreadable(), unreadable(), unreadable()]);
    match report.result {
        Err(BoothClientError::ResponseRead { message }) => assert_eq!(message, "cut"),
        other => panic!("unexpected: {:?}", other),
    }
    assert_eq!(report.attempts, 3);
}

#[test]
fn mixed_failures_end_with_the_last_error() {
    let report = run_fetch(vec![transport("x"), status(429), transport("z")]);
    match report.result {
        Err(BoothClientError::NetworkError { message }) => assert_eq!(message, "z"),
        other => panic!("unexpected: {:?}", other),
    }
    assert_eq!(report.sleeps, vec![500, 2000]);
    assert_eq!(report.attempts, 3);
}

#[test]
fn a_fetch_without_attempts_reports_exhaustion() {
    let report = run_fetch(Vec::<AttemptOutcome<String>>::new());
    assert!(matches!(report.result, Err(BoothClientError::MaxRetriesExceeded)));
    assert_eq!(report.attempts, 0);
    assert!(report.sleeps.is_empty());
}

#[test]
fn a_script_that_ends_early_fails_with_the_last_error() {
    let report = run_fetch(vec![status(429)]);
    assert!(matches!(report.result, Err(BoothClientError::RateLimited)));
    assert_eq!(report.sleeps, vec![1000]);
    assert_eq!(report.attempts, 1);
}

#[test]
fn bodies_of_bytes_are_handed_on_too() {
    let report = run_fetch(vec![AttemptOutcome::Body(vec![0x89u8, 0x50, 0x4e, 0x47])]);
    assert_eq!(report.result.unwrap(), vec![0x89u8, 0x50, 0x4e, 0x47]);
}

#[test]
fn record_decides_step_by_step() {
    let mut state = RetryState::new();
    let first = state.record(status(429));
    assert_eq!(first.backoff_ms, 1000);
    assert!(matches!(first.next, NextStep::Attempt));
    assert_eq!(state.attempts, 1);
    let second = state.record(transport("down"));
    assert_eq!(second.backoff_ms, 1000);
    assert!(matches!(second.next, NextStep::Attempt));
    let third = state.record(body("done"));
    assert_eq!(third.backoff_ms, 0);
    match third.next {
        NextStep::Deliver(text) => assert_eq!(text, "done"),
        _ => panic!("the body was not handed on"),
    }
    assert_eq!(state.attempts, MAX_RETRIES);
    let fourth = state.record(body("beyond the budget"));
    assert_eq!(fourth.backoff_ms, 0);
    assert!(matches!(fourth.next, NextStep::Fail(BoothClientError::NetworkError { .. })));
    assert_eq!(state.attempts, MAX_RETRIES);
}

#[test]
fn success_is_two_hundred_to_two_ninety_nine() {
    assert!(is_success_status(200));
    assert!(is_success_status(204));
    assert!(is_success_status(299));
    assert!(!is_success_status(199));
    assert!(!is_success_status(300));
    assert!(!is_success_status(404));
    assert!(!is_success_status(429));
    assert!(!is_success_status(500));
}
