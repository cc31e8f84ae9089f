use bulk_downloader::gate::Gate;
use bulk_downloader::state::DownloadState;
use bulk_downloader::state::Outcome;
use bulk_downloader::state::RunSummary;

#[test]
fn new_state_starts_at_zero() {
    let state = DownloadState::new();
    assert_eq!(state.success(), 0);
    assert_eq!(state.failed(), 0);
    assert_eq!(state.skipped(), 0);
}

#[test]
fn increments_touch_only_their_counter() {
    let mut state = DownloadState::new();
    state.increment_success();
    state.increment_success();
    state.increment_failed();
    state.increment_skipped();
    state.increment_skipped();
    state.increment_skipped();
    assert_eq!(state.success(), 2);
    assert_eq!(state.failed(), 1);
    assert_eq!(state.skipped(), 3);
}

#[test]
fn record_counts_by_outcome() {
    let mut state = DownloadState::new();
    state.record(&Outcome::Success);
    state.record(&Outcome::Failed(String::from("HTTP 500 Internal Server Error: http://a/")));
    state.record(&Outcome::Skipped);
    state.record(&Outcome::Skipped);
    assert_eq!(state.summary(), RunSummary { success: 1, failed: 1, skipped: 2 });
}

#[test]
fn counts_add_up_to_number_of_outcomes() {
    let mut state = DownloadState::new();
    let mut n: usize = 0;
    while n < 100 {
        if n % 3 == 0 {
            state.record(&Outcome::Success);
        } else if n % 3 == 1 {
            state.record(&Outcome::Failed(String::from("x")));
        } else {
            state.record(&Outcome::Skipped);
        }
        n += 1;
    }
    assert_eq!(state.success() + state.failed() + state.skipped(), 100);
    assert_eq!(state.success(), 34);
    assert_eq!(state.failed(), 33);
    assert_eq!(state.skipped(), 33);
}

#[test]
fn summary_reports_failures() {
    assert!(RunSummary { success: 1, failed: 2, skipped: 0 }.has_failures());
    assert!(!RunSummary { success: 5, failed: 0, skipped: 7 }.has_failures());
}

#[test]
fn gate_hands_out_no_more_than_capacity() {
    let mut gate = Gate::new(2);
    assert_eq!(gate.capacity(), 2);
    assert_eq!(gate.in_flight(), 0);
    assert!(gate.try_acquire());
    assert!(gate.try_acquire());
    assert!(!gate.try_acquire());
    assert_eq!(gate.in_flight(), 2);
    assert!(gate.release());
    assert_eq!(gate.in_flight(), 1);
    assert!(gate.try_acquire());
    assert!(!gate.try_acquire());
}

#[test]
fn gate_release_without_holder_changes_nothing() {
    let mut gate = Gate::new(1);
    assert!(!gate.release());
    assert_eq!(gate.in_flight(), 0);
    assert!(gate.try_acquire());
    assert!(gate.release());
    assert!(!gate.release());
}

#[test]
fn gate_of_zero_slots_never_opens() {
    let mut gate = Gate::new(0);
    assert!(!gate.try_acquire());
    assert_eq!(gate.in_flight(), 0);
}

#[test]
fn report_without_failures_has_no_note() {
    let summary = RunSummary { success: 12, failed: 0, skipped: 3 };
    assert_eq!(
        summary.report(),
        "\nSummary:\n  Downloaded: 12\n  Skipped (already exists): 3\n  Failed: 0\n"
    );
}

#[test]
fn report_with_failures_suggests_running_again() {
    let summary = RunSummary { success: 0, failed: 105, skipped: 40 };
    assert_eq!(
        summary.report(),
        "\nSummary:\n  Downloaded: 0\n  Skipped (already exists): 40\n  Failed: 105\n\nNote: 105 downloads failed. Run again to retry.\n"
    );
}
