use webgrid_smoke::poll::{not_found_reason, PollSchedule, PollVerdict};
use webgrid_smoke::schedule::{exceeded_timeout, stagger_delay_ms, timeout_reason, STAGGER_INCREMENT_MS};
use webgrid_smoke::session::{capability_metadata, SessionDriver};
use webgrid_smoke::tally::{failure_report_line, success_report_line, Tally};

#[test]
fn stagger_delays_grow_by_the_increment() {
    assert_eq!(stagger_delay_ms(0), 0);
    assert_eq!(stagger_delay_ms(4), 100);
    for i in 0..10u64 {
        assert!(stagger_delay_ms(i + 1) >= stagger_delay_ms(i) + STAGGER_INCREMENT_MS);
    }
}

#[test]
fn timeout_is_exceeded_strictly_after_the_bound() {
    assert!(!exceeded_timeout(600_000, 600));
    assert!(exceeded_timeout(600_001, 600));
    assert!(!exceeded_timeout(0, 0));
    assert!(exceeded_timeout(1, 0));
    assert_eq!(timeout_reason(600), "session timed out after 600s");
}

#[test]
fn every_outcome_is_accounted_for() {
    let mut tally = Tally::new(3);
    assert!(!tally.is_complete());
    tally.record(true);
    tally.record(false);
    tally.record(true);
    assert!(tally.is_complete());
    let summary = tally.summary();
    assert_eq!(summary.total, 3);
    assert_eq!(summary.failed, 1);
    assert_eq!(summary.succeeded(), 2);
    assert_eq!(summary.succeeded() + summary.failed, summary.total);
    assert_eq!(summary.exit_code(), 1);
    assert_eq!(summary.summary_line(), "2 / 3 succeeded");
}

#[test]
fn a_zero_count_run_completes_immediately_with_success() {
    let tally = Tally::new(0);
    assert!(tally.is_complete());
    let summary = tally.summary();
    assert_eq!(summary.summary_line(), "0 / 0 succeeded");
    assert_eq!(summary.exit_code(), 0);
}

#[test]
fn an_all_success_run_exits_zero() {
    let mut tally = Tally::new(2);
    tally.record(true);
    tally.record(true);
    let summary = tally.summary();
    assert_eq!(summary.exit_code(), 0);
    assert_eq!(summary.summary_line(), "2 / 2 succeeded");
}

#[test]
fn report_lines_carry_index_duration_and_reason() {
    assert_eq!(
        success_report_line(3, 1500),
        "Test #3 finished in 1s 500ms."
    );
    assert_eq!(success_report_line(0, 0), "Test #0 finished in 0s.");
    assert_eq!(
        failure_report_line(7, "session timed out after 600s"),
        "Test #7 failed: session timed out after 600s"
    );
}

#[test]
fn a_timed_out_task_fails_alone_without_blocking_siblings() {
    // One task runs past its timeout; its siblings still succeed and the
    // summary charges exactly that one task.
    let timeout_secs = 1u64;
    let elapsed_by_task_ms = [20u64, 1_200, 40];
    let mut tally = Tally::new(3);
    for elapsed in elapsed_by_task_ms {
        let timed_out = exceeded_timeout(elapsed, timeout_secs);
        if timed_out {
            let line = failure_report_line(1, timeout_reason(timeout_secs).as_str());
            assert_eq!(line, "Test #1 failed: session timed out after 1s");
        }
        tally.record(!timed_out);
    }
    let summary = tally.summary();
    assert_eq!(summary.failed, 1);
    assert_eq!(summary.succeeded(), 2);
    assert_eq!(summary.exit_code(), 1);
}

#[test]
fn capability_metadata_names_the_run() {
    let pairs = capability_metadata();
    assert_eq!(pairs, vec![("name", "test-name"), ("build", "test-build")]);
}

/// A fake remote endpoint that counts its close calls.
struct FakeRemote {
    close_calls: usize,
}

impl FakeRemote {
    fn close(&mut self) {
        self.close_calls += 1;
    }
}

#[test]
fn teardown_happens_exactly_once_on_the_success_path() {
    let mut remote = FakeRemote { close_calls: 0 };
    let mut driver = SessionDriver::new();
    driver.on_opened("session-1".to_owned());
    driver.on_interaction_done(None);
    remote.close();
    driver.on_teardown();
    assert_eq!(remote.close_calls, 1);
    assert_eq!(driver.close_calls, 1);
    assert!(driver.outcome().is_ok());
}

#[test]
fn teardown_happens_exactly_once_on_the_failure_path() {
    let mut remote = FakeRemote { close_calls: 0 };
    let mut driver = SessionDriver::new();
    driver.on_opened("abc".to_owned());
    driver.on_interaction_done(Some("boom".to_owned()));
    remote.close();
    driver.on_teardown();
    assert_eq!(remote.close_calls, 1);
    assert_eq!(driver.close_calls, 1);
    let err = driver.outcome().err().expect("a failed interaction must fail the task");
    assert_eq!(err, "abc failed due to boom");
}

#[test]
fn a_session_that_never_opened_owes_no_teardown() {
    let mut driver = SessionDriver::new();
    let reason = driver.on_open_failed("connection refused".to_owned());
    assert_eq!(reason, "connection refused");
    assert_eq!(driver.close_calls, 0);
}

#[test]
fn an_unreachable_endpoint_fails_every_task() {
    // Session-open fails for every task; the summary reports failed == count
    // and the exit code is nonzero.
    let count = 3u64;
    let mut tally = Tally::new(count);
    for index in 0..count {
        let mut driver = SessionDriver::new();
        let reason = driver.on_open_failed("connection refused".to_owned());
        let line = failure_report_line(index, reason.as_str());
        assert!(line.contains("connection refused"));
        tally.record(false);
    }
    let summary = tally.summary();
    assert_eq!(summary.failed, count);
    assert_eq!(summary.succeeded(), 0);
    assert_eq!(summary.exit_code(), 1);
    assert_eq!(summary.summary_line(), "0 / 3 succeeded");
}

/// A fake page that reports the element as present only from poll iteration
/// `appears_at` on.
struct FakePage {
    appears_at: usize,
}

impl FakePage {
    fn found_on(&self, attempt: usize) -> bool {
        attempt >= self.appears_at
    }
}

fn drive_poll(page: &FakePage) -> (bool, usize) {
    let mut schedule = PollSchedule::new(500, 20_000);
    let mut attempts = 0usize;
    loop {
        let verdict = schedule.on_attempt(page.found_on(attempts));
        attempts += 1;
        match verdict {
            PollVerdict::Found => return (true, attempts),
            PollVerdict::GiveUp => return (false, attempts),
            PollVerdict::RetryAfterInterval => {},
        }
    }
}

#[test]
fn polled_locate_succeeds_while_the_poll_budget_lasts() {
    // found_at * interval < timeout: 39 * 500 < 20000.
    for appears_at in [0usize, 1, 5, 39] {
        let (found, attempts) = drive_poll(&FakePage { appears_at });
        assert!(found, "attempt {} lies within the poll budget", appears_at);
        assert_eq!(attempts, appears_at + 1);
    }
}

#[test]
fn polled_locate_gives_up_once_the_budget_is_spent() {
    // found_at * interval >= timeout: 40 * 500 == 20000.
    for appears_at in [40usize, 41, 100] {
        let (found, attempts) = drive_poll(&FakePage { appears_at });
        assert!(!found, "attempt {} lies past the poll budget", appears_at);
        assert_eq!(attempts, 40);
    }
    assert_eq!(not_found_reason(), "element not found");
}
