//! Control actions that clients and the timer loop exchange.

use vstd::prelude::*;

verus! {

/// Actions a running phase countdown understands.
#[derive(Debug, Copy, Clone, PartialEq, Eq, Structural)]
pub enum TimerAction {
    /// Either start or pause the current timer.
    PlayPause,
    /// Ends the currently blocking timer loop, such that the consuming code
    /// is able to continue.
    End,
}

/// Client-originated intents applied to the active phase, at most one per tick.
#[derive(Debug, Copy, Clone, PartialEq, Eq, Structural)]
pub enum PomodoroTimerAction {
    /// Toggle the pause flag of the active phase.
    PlayPause,
    /// End the active phase as if its duration had elapsed.
    Skip,
    /// Defer the current long break once more, if still allowed.
    PostponeBreak,
    /// Hard-reset to a fresh work interval with both counters at zero.
    ResetTimer,
    /// No client intent this tick.
    NoOp,
}

} // verus!
