//! Decisions of the waiting loops: polling a readiness condition against a
//! deadline (peer attach, connection attempts, a full queue) and the
//! adaptive spin of the shared-memory sender and receiver.
//!
//! The loops themselves, with their clocks and sleeps, belong to the
//! callers; each iteration hands the observed state here and performs the
//! step that comes back.

use vstd::prelude::*;

verus! {

/// Deadline of the direct transport's wait for the client to attach, and of
/// its cross-container slot waits (10 s).
pub const DIRECT_WAIT_TIMEOUT_NS: u64 = 10_000_000_000;

/// Deadline of the blocking ring transport's wait for its client (30 s),
/// also used for connection retries of the standalone client.
pub const PEER_WAIT_TIMEOUT_NS: u64 = 30_000_000_000;

/// Deadline of a send or receive that keeps finding the ring or queue
/// full or empty (5 s).
pub const TRANSFER_TIMEOUT_NS: u64 = 5_000_000_000;

/// Number of busy spins before the adaptive loop yields once.
pub const SPIN_LIMIT: u32 = 1000;

/// What a polling loop does after one look at its condition.
#[derive(Clone, Copy, Debug, PartialEq, Eq, Structural)]
pub enum WaitStep {
    /// The condition holds: leave the loop successfully.
    Proceed,
    /// The deadline has passed without the condition: fail.
    TimedOut,
    /// Wait a little and look again.
    Retry,
}

/// The step of a polling loop.
pub open spec fn spec_wait_step(ready: bool, elapsed_ns: u64, timeout_ns: u64) -> WaitStep {
    if ready {
        WaitStep::Proceed
    } else if elapsed_ns > timeout_ns {
        WaitStep::TimedOut
    } else {
        WaitStep::Retry
    }
}

/// One iteration of a polling loop: the condition is looked at first, the
/// deadline (strictly exceeded) second.
pub fn wait_step(ready: bool, elapsed_ns: u64, timeout_ns: u64) -> (s: WaitStep)
    ensures
        s == spec_wait_step(ready, elapsed_ns, timeout_ns),
{
    if ready {
        WaitStep::Proceed
    } else if elapsed_ns > timeout_ns {
        WaitStep::TimedOut
    } else {
        WaitStep::Retry
    }
}

/// A polling loop never fails while its deadline has not passed, never
/// fails once its condition holds, and once it would fail it would fail at
/// every later time as well.
pub proof fn lemma_wait_step_deadline(ready: bool, e1: u64, e2: u64, timeout_ns: u64)
    requires
        e1 <= e2,
    ensures
        e2 <= timeout_ns ==> spec_wait_step(ready, e2, timeout_ns) != WaitStep::TimedOut,
        ready ==> spec_wait_step(ready, e2, timeout_ns) == WaitStep::Proceed,
        spec_wait_step(ready, e1, timeout_ns) == WaitStep::TimedOut ==> spec_wait_step(
            ready,
            e2,
            timeout_ns,
        ) == WaitStep::TimedOut,
{
}

/// What the adaptive sender or receiver does after one attempt.
#[derive(Clone, Copy, Debug, PartialEq, Eq, Structural)]
pub enum SpinStep {
    /// The attempt succeeded.
    Done,
    /// The deadline has passed: fail.
    TimedOut,
    /// Spin briefly and try again.
    Spin,
    /// Yield to the scheduler and try again.
    Yield,
}

/// State of an adaptive spin loop.
#[derive(Clone, Copy, Debug, PartialEq, Eq, Structural)]
pub struct SpinState {
    /// Failed attempts since the last yield.
    pub spin_count: u32,
    /// Whether any attempt has failed (the sender reports this as
    /// backpressure).
    pub backpressure_detected: bool,
}

impl SpinState {
    /// State before the first attempt.
    pub fn new() -> (s: SpinState)
        ensures
            s.spin_count == 0,
            !s.backpressure_detected,
    {
        SpinState { spin_count: 0, backpressure_detected: false }
    }

    /// Whether the state can be reached from `new`: the spin counter is
    /// below the limit.
    pub open spec fn wf(&self) -> bool {
        self.spin_count < SPIN_LIMIT
    }

    /// One iteration after an attempt: a success ends the loop; a failure
    /// marks backpressure, fails once the deadline (strictly) has passed,
    /// and otherwise spins, yielding and restarting the count every
    /// `SPIN_LIMIT` failures.
    pub fn step(&mut self, succeeded: bool, elapsed_ns: u64, timeout_ns: u64) -> (s: SpinStep)
        requires
            old(self).wf(),
        ensures
            final(self).wf(),
            succeeded ==> s == SpinStep::Done && *final(self) == *old(self),
            !succeeded ==> final(self).backpressure_detected,
            !succeeded && elapsed_ns > timeout_ns ==> s == SpinStep::TimedOut
                && final(self).spin_count == old(self).spin_count,
            !succeeded && elapsed_ns <= timeout_ns && old(self).spin_count + 1 < SPIN_LIMIT ==> s
                == SpinStep::Spin && final(self).spin_count == old(self).spin_count + 1,
            !succeeded && elapsed_ns <= timeout_ns && old(self).spin_count + 1 >= SPIN_LIMIT ==> s
                == SpinStep::Yield && final(self).spin_count == 0,
    {
        if succeeded {
            return SpinStep::Done;
        }
        self.backpressure_detected = true;
        if elapsed_ns > timeout_ns {
            return SpinStep::TimedOut;
        }
        let next = self.spin_count + 1;
        if next < SPIN_LIMIT {
            self.spin_count = next;
            SpinStep::Spin
        } else {
            self.spin_count = 0;
            SpinStep::Yield
        }
    }
}

/// Most attempts a client makes to open a queue that does not exist yet.
pub const OPEN_MAX_ATTEMPTS: u32 = 10;

/// First delay between open attempts, in milliseconds.
pub const OPEN_INITIAL_DELAY_MS: u64 = 10;

/// Longest delay between open attempts, in milliseconds.
pub const OPEN_MAX_DELAY_MS: u64 = 1000;

/// Outcome of one attempt to open a queue.
#[derive(Clone, Copy, Debug, PartialEq, Eq, Structural)]
pub enum OpenOutcome {
    /// The queue was opened.
    Opened,
    /// The queue does not exist (yet).
    NotFound,
    /// Any other failure.
    Failed,
}

/// What the opening loop does next.
#[derive(Clone, Copy, Debug, PartialEq, Eq, Structural)]
pub enum OpenStep {
    /// The queue is open.
    Done,
    /// Sleep this many milliseconds and try again.
    RetryAfterMs(u64),
    /// Give up; the number is the count of attempts made.
    GiveUp(u32),
}

/// Exponential backoff of the queue-opening loop.
#[derive(Clone, Copy, Debug, PartialEq, Eq, Structural)]
pub struct OpenBackoff {
    /// Failed attempts so far.
    pub attempts: u32,
    /// Delay before the next attempt, in milliseconds.
    pub delay_ms: u64,
}

impl OpenBackoff {
    /// State before the first attempt.
    pub fn new() -> (b: OpenBackoff)
        ensures
            b.attempts == 0,
            b.delay_ms == OPEN_INITIAL_DELAY_MS,
            b.wf(),
    {
        OpenBackoff { attempts: 0, delay_ms: OPEN_INITIAL_DELAY_MS }
    }

    /// Reachable states: fewer failed attempts than allowed, and a delay no
    /// longer than the cap.
    pub open spec fn wf(&self) -> bool {
        self.attempts < OPEN_MAX_ATTEMPTS && self.delay_ms <= OPEN_MAX_DELAY_MS
    }

    /// One iteration after an attempt: a missing queue is retried after the
    /// current delay as long as fewer than `OPEN_MAX_ATTEMPTS` attempts have
    /// been made, the delay doubling up to `OPEN_MAX_DELAY_MS`; any other
    /// failure, or a missing queue at the last allowed attempt, gives up
    /// with the number of attempts made.
    pub fn step(&mut self, outcome: OpenOutcome) -> (s: OpenStep)
        requires
            old(self).wf(),
        ensures
            final(self).wf(),
            outcome == OpenOutcome::Opened ==> s == OpenStep::Done && *final(self) == *old(self),
            outcome == OpenOutcome::NotFound && old(self).attempts + 1 < OPEN_MAX_ATTEMPTS ==> {
                &&& s == OpenStep::RetryAfterMs(old(self).delay_ms)
                &&& final(self).attempts == old(self).attempts + 1
                &&& final(self).delay_ms == (if 2 * old(self).delay_ms < OPEN_MAX_DELAY_MS {
                    2 * old(self).delay_ms
                } else {
                    OPEN_MAX_DELAY_MS as int
                })
            },
            (outcome == OpenOutcome::Failed || (outcome == OpenOutcome::NotFound
                && old(self).attempts + 1 >= OPEN_MAX_ATTEMPTS)) ==> s == OpenStep::GiveUp(
                (old(self).attempts + 1) as u32,
            ) && *final(self) == *old(self),
    {
        match outcome {
            OpenOutcome::Opened => OpenStep::Done,
            OpenOutcome::NotFound => {
                if self.attempts + 1 < OPEN_MAX_ATTEMPTS {
                    let wait = self.delay_ms;
                    self.attempts = self.attempts + 1;
                    let doubled = 2 * self.delay_ms;
                    self.delay_ms = if doubled < OPEN_MAX_DELAY_MS {
                        doubled
                    } else {
                        OPEN_MAX_DELAY_MS
                    };
                    OpenStep::RetryAfterMs(wait)
                } else {
                    OpenStep::GiveUp(self.attempts + 1)
                }
            },
            OpenOutcome::Failed => OpenStep::GiveUp(self.attempts + 1),
        }
    }
}

} // verus!
