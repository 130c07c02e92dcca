//! Waiting for a container to become ready: its logs are sampled until a predicate matches or
//! a timeout has elapsed. The caller keeps the clock, fetches the logs and sleeps; the poller
//! decides.
use vstd::prelude::*;

use crate::command::CommandError;
use crate::text::{contains_text, has_infix};

verus! {

/// The shortest pause between two log fetches, in milliseconds.
pub const MIN_POLL_INTERVAL_MS: u64 = 10;

/// The predicate never matched within the timeout.
#[derive(Debug, Clone, PartialEq, Eq)]
pub struct TimeoutError {
    /// Time spent waiting when the deadline check failed; never less than `timeout_ms`.
    pub elapsed_ms: u64,
    pub timeout_ms: u64,
    /// The last failure to fetch the logs, if a fetch failed along the way.
    pub last_error: Option<CommandError>,
}

/// What to do after a sample has been judged.
#[derive(Debug, Clone, Copy, PartialEq, Eq)]
pub enum PollAction {
    /// The predicate matched: the container is ready.
    Ready,
    /// Pause this long, then check the deadline and sample again.
    Sleep { ms: u64 },
}

pub struct ReadinessPoller {
    timeout_ms: u64,
    interval_ms: u64,
    last_error: Option<CommandError>,
}

/// The deadline has passed.
pub open spec fn deadline_passed(timeout_ms: nat, elapsed_ms: nat) -> bool {
    elapsed_ms >= timeout_ms
}

/// A sample shows readiness: the logs were fetched and the predicate held on them.
pub open spec fn sample_matches(sample: Result<bool, CommandError>) -> bool {
    sample matches Ok(true)
}

impl ReadinessPoller {
    pub closed spec fn timeout(&self) -> nat {
        self.timeout_ms as nat
    }

    pub closed spec fn interval(&self) -> nat {
        self.interval_ms as nat
    }

    pub closed spec fn last_error(&self) -> Option<CommandError> {
        self.last_error
    }

    /// A poller with the given timeout; the interval is raised to `MIN_POLL_INTERVAL_MS` if
    /// shorter, so that polling never spins.
    pub fn new(timeout_ms: u64, interval_ms: u64) -> (r: ReadinessPoller)
        ensures
            r.timeout() == timeout_ms,
            r.interval() == if interval_ms < MIN_POLL_INTERVAL_MS {
                MIN_POLL_INTERVAL_MS
            } else {
                interval_ms
            },
            r.last_error() is None,
    {
        let interval = if interval_ms < MIN_POLL_INTERVAL_MS {
            MIN_POLL_INTERVAL_MS
        } else {
            interval_ms
        };
        ReadinessPoller { timeout_ms, interval_ms: interval, last_error: None }
    }

    pub fn timeout_ms(&self) -> (r: u64)
        ensures
            r == self.timeout(),
    {
        self.timeout_ms
    }

    pub fn interval_ms(&self) -> (r: u64)
        ensures
            r == self.interval(),
    {
        self.interval_ms
    }

    /// To be asked before each fetch, with the time spent since waiting began: the timeout
    /// error once the deadline has passed.
    pub fn check_deadline(&self, elapsed_ms: u64) -> (r: Result<(), TimeoutError>)
        ensures
            r is Err <==> deadline_passed(self.timeout(), elapsed_ms as nat),
            r matches Err(e) ==> e == (TimeoutError {
                elapsed_ms,
                timeout_ms: self.timeout() as u64,
                last_error: self.last_error(),
            }),
    {
        if elapsed_ms >= self.timeout_ms {
            Err(
                TimeoutError {
                    elapsed_ms,
                    timeout_ms: self.timeout_ms,
                    last_error: match &self.last_error {
                        Some(e) => Some(e.duplicate()),
                        None => None,
                    },
                },
            )
        } else {
            Ok(())
        }
    }

    /// Judges one sample: the predicate's verdict on freshly fetched logs, or the error that
    /// the fetch gave. A failed fetch is remembered for the timeout error, not reported.
    pub fn record_sample(&mut self, sample: Result<bool, CommandError>) -> (r: PollAction)
        ensures
            final(self).timeout() == old(self).timeout(),
            final(self).interval() == old(self).interval(),
            r == if sample_matches(sample) {
                PollAction::Ready
            } else {
                PollAction::Sleep { ms: old(self).interval() as u64 }
            },
            final(self).last_error() == match sample {
                Err(e) => Some(e),
                Ok(_) => old(self).last_error(),
            },
    {
        match sample {
            Ok(true) => PollAction::Ready,
            Ok(false) => PollAction::Sleep { ms: self.interval_ms },
            Err(e) => {
                self.last_error = Some(e);
                PollAction::Sleep { ms: self.interval_ms }
            },
        }
    }
}

/// The readiness predicate of a service that announces itself with a marker in its logs.
pub fn logs_contain_marker(logs: &str, marker: &str) -> (r: bool)
    ensures
        r == has_infix(logs@, marker@),
{
    contains_text(logs, marker)
}

/// How a wait ends.
pub enum WaitOutcome {
    Ready { at_ms: nat },
    TimedOut { elapsed_ms: nat },
    /// The samples ran out before either.
    Pending,
}

/// A whole wait, driven by `check_deadline` and `record_sample`: sample `i` is taken at
/// `times[i]` (after the deadline check at that time) and matches when `matches[i]`.
pub open spec fn wait_outcome(timeout_ms: nat, times: Seq<nat>, matches: Seq<bool>) -> WaitOutcome
    decreases times.len(),
{
    if times.len() == 0 || matches.len() == 0 {
        WaitOutcome::Pending
    } else if deadline_passed(timeout_ms, times[0]) {
        WaitOutcome::TimedOut { elapsed_ms: times[0] }
    } else if matches[0] {
        WaitOutcome::Ready { at_ms: times[0] }
    } else {
        wait_outcome(timeout_ms, times.drop_first(), matches.drop_first())
    }
}

/// Sample times when fetching takes no time: one interval apart, starting at zero.
pub open spec fn even_schedule(interval_ms: nat, n: nat) -> Seq<nat> {
    Seq::new(n, |i: int| (i * interval_ms) as nat)
}

/// A wait ends ready at the first matching sample if that sample is taken before the
/// deadline.
pub proof fn lemma_ready_at_first_match(
    timeout_ms: nat,
    times: Seq<nat>,
    matches: Seq<bool>,
    n: int,
)
    requires
        times.len() == matches.len(),
        0 <= n < matches.len(),
        matches[n],
        forall|i: int| 0 <= i < n ==> !matches[i],
        forall|i: int, j: int| 0 <= i <= j < times.len() ==> times[i] <= times[j],
        times[n] < timeout_ms,
    ensures
        wait_outcome(timeout_ms, times, matches) == (WaitOutcome::Ready { at_ms: times[n] }),
    decreases n,
{
    if n > 0 {
        lemma_ready_at_first_match(timeout_ms, times.drop_first(), matches.drop_first(), n - 1);
    }
}

/// When the logs gain the marker at sample `n` and `n` intervals fit within the timeout, the
/// wait succeeds, and it does so before the timeout has elapsed.
pub proof fn lemma_ready_before_timeout(
    timeout_ms: nat,
    interval_ms: nat,
    matches: Seq<bool>,
    n: int,
)
    requires
        0 <= n < matches.len(),
        matches[n],
        forall|i: int| 0 <= i < n ==> !matches[i],
        n * interval_ms < timeout_ms,
    ensures
        wait_outcome(timeout_ms, even_schedule(interval_ms, matches.len()), matches) == (
        WaitOutcome::Ready { at_ms: (n * interval_ms) as nat }),
{
    let times = even_schedule(interval_ms, matches.len());
    assert forall|i: int, j: int| 0 <= i <= j < times.len() implies times[i] <= times[j] by {
        assert(i * interval_ms <= j * interval_ms) by (nonlinear_arith)
            requires
                0 <= i <= j,
                interval_ms >= 0,
        ;
    }
    lemma_ready_at_first_match(timeout_ms, times, matches, n);
}

/// When the logs never gain the marker, and the caller pauses at least one interval between
/// samples, the wait ends with a timeout whose elapsed time is at least the timeout, once
/// enough samples have been taken.
pub proof fn lemma_times_out_without_match(
    timeout_ms: nat,
    interval_ms: nat,
    times: Seq<nat>,
    matches: Seq<bool>,
)
    requires
        interval_ms > 0,
        times.len() == matches.len(),
        times.len() > timeout_ms / interval_ms + 1,
        forall|i: int| 0 <= i < matches.len() ==> !matches[i],
        forall|i: int| 0 <= i < times.len() ==> times[i] >= i * interval_ms,
    ensures
        wait_outcome(timeout_ms, times, matches) matches WaitOutcome::TimedOut { elapsed_ms }
            && elapsed_ms >= timeout_ms,
{
    let k: int = (timeout_ms / interval_ms + 1) as int;
    assert(k * interval_ms >= timeout_ms) by (nonlinear_arith)
        requires
            k == timeout_ms / interval_ms + 1,
            interval_ms > 0,
    ;
    lemma_timed_out_by(timeout_ms, times, matches, k);
}

/// Without a match, a wait whose sample `k` is taken after the deadline times out no later
/// than there.
proof fn lemma_timed_out_by(timeout_ms: nat, times: Seq<nat>, matches: Seq<bool>, k: int)
    requires
        times.len() == matches.len(),
        0 <= k < times.len(),
        times[k] >= timeout_ms,
        forall|i: int| 0 <= i < matches.len() ==> !matches[i],
    ensures
        wait_outcome(timeout_ms, times, matches) matches WaitOutcome::TimedOut { elapsed_ms }
            && elapsed_ms >= timeout_ms,
    decreases k,
{
    if k > 0 && !deadline_passed(timeout_ms, times[0]) {
        lemma_timed_out_by(timeout_ms, times.drop_first(), matches.drop_first(), k - 1);
    }
}

} // verus!
