//! Immutable timer configuration threaded through every phase.

use vstd::prelude::*;

verus! {

/// Durations (in seconds), the long-break cadence and the postpone limit.
#[derive(Debug, Copy, Clone, PartialEq, Eq, Structural)]
pub struct PomodoroTimerConfig {
    /// Length of one work interval, in seconds.
    pub timer: u64,
    /// Length of a short break, in seconds.
    pub minor_break: u64,
    /// Length of a long break, in seconds.
    pub major_break: u64,
    /// Every `intervals`-th completed round ends in a long break.
    pub intervals: u64,
    /// How many times in a row a long break may be deferred.
    pub postpone_limit: u64,
}

impl PomodoroTimerConfig {
    /// The long-break cadence is a modulus, so it must not be zero.
    pub open spec fn wf(self) -> bool {
        self.intervals >= 1
    }
}

} // verus!
