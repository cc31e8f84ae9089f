use bulk_downloader::retry::backoff_delay_secs;
use bulk_downloader::retry::is_success_status;
use bulk_downloader::retry::AttemptResult;
use bulk_downloader::retry::RetryState;
use bulk_downloader::state::Outcome;

fn bad_status(text: &str) -> AttemptResult {
    AttemptResult::BadStatus { status: String::from(text) }
}

#[test]
fn success_statuses_are_200_to_299() {
    assert!(!is_success_status(0));
    assert!(!is_success_status(199));
    assert!(is_success_status(200));
    assert!(is_success_status(204));
    assert!(is_success_status(299));
    assert!(!is_success_status(300));
    assert!(!is_success_status(404));
    assert!(!is_success_status(500));
    assert!(!is_success_status(u16::MAX));
}

#[test]
fn backoff_doubles_from_one_second() {
    assert_eq!(backoff_delay_secs(0), 0);
    assert_eq!(backoff_delay_secs(1), 1);
    assert_eq!(backoff_delay_secs(2), 2);
    assert_eq!(backoff_delay_secs(3), 4);
    assert_eq!(backoff_delay_secs(4), 8);
    assert_eq!(backoff_delay_secs(11), 1024);
    assert_eq!(backoff_delay_secs(64), 9223372036854775808);
}

#[test]
fn always_failing_record_is_attempted_retries_plus_one_times() {
    let max_retries: u32 = 3;
    let url = "http://example.com/a.jpg";
    let mut state = RetryState::start();
    let mut attempts: u32 = 0;
    let mut delays: Vec<u64> = Vec::new();
    while let Some(attempt) = state.pending_attempt() {
        if attempt > 0 {
            delays.push(backoff_delay_secs(attempt));
        }
        attempts += 1;
        state = state.on_result(&bad_status("503 Service Unavailable"), url, max_retries);
    }
    assert_eq!(attempts, 4);
    assert_eq!(delays, vec![1, 2, 4]);
    assert!(state.is_finished());
    match state.into_outcome() {
        Some(Outcome::Failed(reason)) => {
            assert_eq!(reason, "HTTP 503 Service Unavailable: http://example.com/a.jpg")
        }
        _ => panic!("the record must fail"),
    }
}

#[test]
fn failure_then_success_takes_two_attempts() {
    let url = "http://example.com/a.jpg";
    let state = RetryState::start();
    assert_eq!(state.pending_attempt(), Some(0));
    let state = state.on_result(&bad_status("500 Internal Server Error"), url, 3);
    assert_eq!(state.pending_attempt(), Some(1));
    assert!(!state.is_finished());
    let state = state.on_result(&AttemptResult::Saved, url, 3);
    assert_eq!(state.pending_attempt(), None);
    assert!(state.is_finished());
    assert!(matches!(state.into_outcome(), Some(Outcome::Success)));
}

#[test]
fn first_attempt_success_needs_no_retry() {
    let state = RetryState::start().on_result(&AttemptResult::Saved, "http://a/", 0);
    assert!(matches!(state, RetryState::Success));
}

#[test]
fn no_retries_means_one_attempt() {
    let result = AttemptResult::RequestFailed { detail: String::from("connection refused") };
    let state = RetryState::start().on_result(&result, "http://a/", 0);
    match state {
        RetryState::Failed(reason) => assert_eq!(reason, "Request failed: connection refused"),
        _ => panic!("the record must fail"),
    }
}

#[test]
fn last_reason_is_reported() {
    let url = "http://a/";
    let first = AttemptResult::RequestFailed { detail: String::from("timed out") };
    let second = AttemptResult::BodyReadFailed { detail: String::from("connection reset") };
    let state = RetryState::start().on_result(&first, url, 1);
    assert!(matches!(state, RetryState::Attempting(1)));
    let state = state.on_result(&second, url, 1);
    match state {
        RetryState::Failed(reason) => {
            assert_eq!(reason, "Failed to read response body: connection reset")
        }
        _ => panic!("the record must fail"),
    }
}

#[test]
fn write_failure_is_not_retried() {
    let result = AttemptResult::WriteFailed { detail: String::from("No space left on device") };
    let state = RetryState::start().on_result(&result, "http://a/", 5);
    match state {
        RetryState::Failed(reason) => assert_eq!(reason, "No space left on device"),
        _ => panic!("the record must fail at once"),
    }
}

#[test]
fn finished_states_ignore_further_results() {
    let state = RetryState::Success.on_result(&bad_status("404 Not Found"), "http://a/", 3);
    assert!(matches!(state, RetryState::Success));
    let state = RetryState::Failed(String::from("gone")).on_result(&AttemptResult::Saved, "http://a/", 3);
    match state {
        RetryState::Failed(reason) => assert_eq!(reason, "gone"),
        _ => panic!("a failed record stays failed"),
    }
}

#[test]
fn unfinished_record_has_no_outcome() {
    assert!(RetryState::start().into_outcome().is_none());
    assert!(RetryState::Attempting(2).into_outcome().is_none());
}

#[test]
fn reason_texts() {
    let url = "https://example.org/x";
    assert_eq!(AttemptResult::Saved.reason_text(url), "");
    assert_eq!(bad_status("404 Not Found").reason_text(url), "HTTP 404 Not Found: https://example.org/x");
    assert_eq!(
        AttemptResult::RequestFailed { detail: String::from("dns error") }.reason_text(url),
        "Request failed: dns error"
    );
    assert_eq!(
        AttemptResult::BodyReadFailed { detail: String::from("eof") }.reason_text(url),
        "Failed to read response body: eof"
    );
    assert_eq!(AttemptResult::WriteFailed { detail: String::from("denied") }.reason_text(url), "denied");
}
