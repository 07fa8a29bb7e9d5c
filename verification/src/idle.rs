//! When the interface counts as idle for `wait_for_idle`.
//!
//! The application stamps the time of every state-mutating message and
//! polls; each poll hands the quiet time and the time left before the
//! deadline to [`idle_step`], which decides whether the wait is over
//! and otherwise how long to sleep.

use vstd::prelude::*;

verus! {

/// How long the interface must be quiet before it counts as idle, in
/// nanoseconds: three frames at 60 fps.
pub const IDLE_THRESHOLD_NS: u64 = 50_000_000;

/// What a poll of the idle wait decides.
#[derive(Copy, Clone, Debug, PartialEq, Eq, Structural)]
pub enum IdleStep {
    /// Quiet long enough: the wait succeeds.
    Idle,
    /// The deadline passed first: the wait fails.
    TimedOut,
    /// Sleep this many nanoseconds, then poll again.
    Sleep(u64),
}

/// Nanoseconds since the last mark, never negative.
pub open spec fn quiet_spec(now_ns: i64, last_mark_ns: i64) -> int {
    if now_ns > last_mark_ns {
        now_ns - last_mark_ns
    } else {
        0
    }
}

/// Nanoseconds since the last mark, given both stamps on one clock;
/// a mark after `now` counts as no quiet time.
pub fn quiet_nanos(now_ns: i64, last_mark_ns: i64) -> (r: u64)
    ensures
        r == quiet_spec(now_ns, last_mark_ns),
{
    if now_ns > last_mark_ns {
        let d: i128 = now_ns as i128 - last_mark_ns as i128;
        d as u64
    } else {
        0
    }
}

/// The decision of one poll.
pub open spec fn idle_step_spec(quiet_ns: u64, remaining_ns: u64) -> IdleStep {
    if quiet_ns >= IDLE_THRESHOLD_NS {
        IdleStep::Idle
    } else if remaining_ns == 0 {
        IdleStep::TimedOut
    } else {
        let need = (IDLE_THRESHOLD_NS - quiet_ns) as u64;
        IdleStep::Sleep(if need < remaining_ns { need } else { remaining_ns })
    }
}

/// Decide one poll of the idle wait: idle once quiet for the threshold,
/// timed out once no time remains, else sleep until the threshold could
/// be reached or the deadline comes, whichever is first. A sleep is
/// never zero, never past the deadline and never past the threshold.
pub fn idle_step(quiet_ns: u64, remaining_ns: u64) -> (r: IdleStep)
    ensures
        r == idle_step_spec(quiet_ns, remaining_ns),
        r matches IdleStep::Sleep(d) ==> 0 < d <= remaining_ns && quiet_ns + d
            <= IDLE_THRESHOLD_NS,
{
    if quiet_ns >= IDLE_THRESHOLD_NS {
        IdleStep::Idle
    } else if remaining_ns == 0 {
        IdleStep::TimedOut
    } else {
        let need = IDLE_THRESHOLD_NS - quiet_ns;
        IdleStep::Sleep(if need < remaining_ns { need } else { remaining_ns })
    }
}

} // verus!
