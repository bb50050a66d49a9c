use rqc::backoff::Backoff;
use rqc::client::{status_of_outcome, RqcBuild, TestResult, TOTAL_BYTES};
use rqc::comm::TestStatus;
use rqc::finite_buffer::BufferOpError;
use rqc::supervisor::{build_rustflags, handle_wait_event, Rqc, RqcBuilder, Stats,
    SupervisorAction, WaitEvent};

#[test]
fn backoff_schedule_saturates() {
    let mut b = Backoff::new();
    assert_eq!(b.delay_millis(), 0);
    assert_eq!(b.delay_millis(), 1);
    assert_eq!(b.delay_millis(), 4);
    assert_eq!(b.delay_millis(), 8);
    assert_eq!(b.delay_millis(), 16);
    assert_eq!(b.delay_millis(), 16);
    b.reset();
    assert_eq!(b.delay_millis(), 0);
    assert_eq!(b.delay_millis(), 1);
}

#[test]
fn outcome_statuses() {
    assert_eq!(status_of_outcome(&Ok(TestResult::Passed)), TestStatus::Passed);
    assert_eq!(status_of_outcome(&Ok(TestResult::Skipped)), TestStatus::Skipped);
    assert_eq!(status_of_outcome(&Ok(TestResult::Failed)), TestStatus::Failed);
    assert_eq!(
        status_of_outcome(&Err(BufferOpError::InsufficientBytes)),
        TestStatus::InsufficientBytes
    );
}

#[test]
fn client_build_defaults() {
    let rqc = RqcBuild::new().build();
    assert_eq!(rqc.byte_pool_capacity(), 1_048_576);
    let rqc = RqcBuild::new().byte_pool_capacity(4096).build();
    assert_eq!(rqc.byte_pool_capacity(), 4096);
    assert_eq!(TOTAL_BYTES, 32_768);
}

#[test]
fn supervisor_defaults_and_builder() {
    let rqc = Rqc::new();
    assert_eq!(rqc.shm_total_bytes(), 1024);
    assert_eq!(rqc.shm_path().as_str(), "/RQC");
    assert_eq!(rqc.target_byte_pool_size(), 256);

    let rqc = RqcBuilder::new()
        .shm_total_bytes(1024 + 2048)
        .shm_path(String::from("/fuzz"))
        .target_byte_pool_size(1024)
        .build();
    assert_eq!(rqc.shm_total_bytes(), 3072);
    assert_eq!(rqc.shm_path().as_str(), "/fuzz");
    assert_eq!(rqc.target_byte_pool_size(), 1024);

    let rqc = RqcBuilder::new().build();
    assert_eq!(rqc.shm_total_bytes(), 1024);
    assert_eq!(rqc.shm_path().as_str(), "/RQC");
    assert_eq!(rqc.target_byte_pool_size(), 256);
}

#[test]
fn crash_is_counted_once_and_restarted() {
    let mut stats = Stats::new();
    let a = handle_wait_event(&mut stats, WaitEvent::Exited(139));
    assert_eq!(a, SupervisorAction::Restart);
    assert_eq!(stats.crash_failure, 1);
    // A second crash is again counted exactly once.
    let a = handle_wait_event(&mut stats, WaitEvent::Exited(1));
    assert_eq!(a, SupervisorAction::Restart);
    assert_eq!(stats.crash_failure, 2);
    // The other counters are untouched.
    assert_eq!(stats.passed + stats.skipped + stats.failed, 0);
    assert_eq!(stats.test_cases, 0);
}

#[test]
fn clean_exit_before_first_test_is_fatal() {
    let mut stats = Stats::new();
    let a = handle_wait_event(&mut stats, WaitEvent::Exited(0));
    assert_eq!(a, SupervisorAction::Shutdown(1));
    assert_eq!(stats.crash_failure, 0);
}

#[test]
fn clean_exit_after_tests_restarts() {
    let mut stats = Stats::new();
    stats.test_cases = 3;
    let a = handle_wait_event(&mut stats, WaitEvent::Exited(0));
    assert_eq!(a, SupervisorAction::Restart);
    assert_eq!(stats.crash_failure, 0);
}

#[test]
fn alive_target_is_polled_and_errors_shut_down() {
    let mut stats = Stats::new();
    assert_eq!(
        handle_wait_event(&mut stats, WaitEvent::StillAlive),
        SupervisorAction::Poll
    );
    assert_eq!(
        handle_wait_event(&mut stats, WaitEvent::OtherStatus),
        SupervisorAction::Idle
    );
    assert_eq!(
        handle_wait_event(&mut stats, WaitEvent::NoChild),
        SupervisorAction::Idle
    );
    assert_eq!(
        handle_wait_event(&mut stats, WaitEvent::WaitFailed),
        SupervisorAction::Shutdown(1)
    );
}

#[test]
fn rustflags_append_user_flags() {
    assert_eq!(
        build_rustflags("").as_str(),
        "-C debug-assertions -C overflow-checks -C opt-level=3 -C target-cpu=native"
    );
    assert_eq!(
        build_rustflags("-C lto").as_str(),
        "-C debug-assertions -C overflow-checks -C opt-level=3 -C target-cpu=native -C lto"
    );
}

#[test]
fn stats_record_each_status() {
    let mut stats = Stats::new();
    stats.record(TestStatus::Passed);
    stats.record(TestStatus::Passed);
    stats.record(TestStatus::Failed);
    stats.record(TestStatus::Skipped);
    stats.record(TestStatus::InsufficientBytes);
    assert_eq!(stats.passed, 2);
    assert_eq!(stats.failed, 1);
    assert_eq!(stats.skipped, 1);
    assert_eq!(stats.insufficient_bytes, 1);
    assert_eq!(stats.restarts, 0);
}
