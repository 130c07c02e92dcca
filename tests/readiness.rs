use birthday_greetings::command::CommandError;
use birthday_greetings::readiness::{logs_contain_marker, PollAction, ReadinessPoller, TimeoutError, MIN_POLL_INTERVAL_MS};

/// Drives a poller against a simulated clock: fetching takes no time, sleeping advances it.
fn wait(poller: &mut ReadinessPoller, logs: impl Fn(u32) -> Result<String, CommandError>) -> Result<u64, TimeoutError> {
    let mut elapsed: u64 = 0;
    let mut fetches: u32 = 0;
    loop {
        poller.check_deadline(elapsed)?;
        let sample = logs(fetches).map(|l| logs_contain_marker(&l, "started"));
        fetches += 1;
        match poller.record_sample(sample) {
            PollAction::Ready => return Ok(elapsed),
            PollAction::Sleep { ms } => elapsed += ms,
        }
    }
}

#[test]
fn ready_once_marker_appears_before_timeout() {
    let mut poller = ReadinessPoller::new(5000, 100);
    let at = wait(&mut poller, |n| Ok(if n >= 3 { "booting\nstarted\n" } else { "booting\n" }.to_string()));
    assert_eq!(at, Ok(300));
}

#[test]
fn times_out_without_marker() {
    let mut poller = ReadinessPoller::new(1000, 100);
    let err = wait(&mut poller, |_| Ok("booting".to_string())).unwrap_err();
    assert!(err.elapsed_ms >= 1000);
    assert_eq!(err.timeout_ms, 1000);
    assert_eq!(err.last_error, None);
}

#[test]
fn fetch_failures_are_kept_for_the_timeout() {
    let mut poller = ReadinessPoller::new(250, 100);
    let failure = CommandError::NonZeroExit { stdout: String::new(), stderr: "no such container".to_string() };
    let f = failure.clone();
    let err = wait(&mut poller, move |_| Err(f.clone())).unwrap_err();
    assert_eq!(err, TimeoutError { elapsed_ms: 300, timeout_ms: 250, last_error: Some(failure) });
}

#[test]
fn fetch_failure_then_success_is_ready() {
    let mut poller = ReadinessPoller::new(1000, 100);
    let failure = CommandError::SpawnFailed { reason: "busy".to_string(), stdout: String::new(), stderr: String::new() };
    assert_eq!(poller.record_sample(Err(failure)), PollAction::Sleep { ms: 100 });
    assert_eq!(poller.record_sample(Ok(true)), PollAction::Ready);
}

#[test]
fn interval_is_never_shorter_than_the_minimum() {
    assert_eq!(ReadinessPoller::new(1000, 0).interval_ms(), MIN_POLL_INTERVAL_MS);
    assert_eq!(ReadinessPoller::new(1000, 250).interval_ms(), 250);
    assert_eq!(ReadinessPoller::new(1000, 250).timeout_ms(), 1000);
}

#[test]
fn deadline_is_inclusive() {
    let poller = ReadinessPoller::new(500, 100);
    assert_eq!(poller.check_deadline(499), Ok(()));
    assert_eq!(poller.check_deadline(500), Err(TimeoutError { elapsed_ms: 500, timeout_ms: 500, last_error: None }));
}

#[test]
fn marker_search() {
    assert!(logs_contain_marker("smtp server started on 2525", "started"));
    assert!(!logs_contain_marker("smtp server starting", "started"));
    assert!(logs_contain_marker("anything", ""));
}
