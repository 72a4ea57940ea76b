//! The snapshot a timer publishes once per tick.

use vstd::prelude::*;

use crate::pomodoro::{PhaseKind, PomodoroTimer, TimerModel};
use crate::text::{format_time, time_text};

verus! {

/// Immutable snapshot of the running timer, consumed by rendering and by
/// no one else; never fed back into the state machine.
#[derive(Debug, Clone)]
pub struct ViewState {
    pub is_break: bool,
    pub is_postponed: bool,
    pub postpone_count: u64,
    pub round: u64,
    pub time: String,
    pub is_paused: bool,
}

/// Model of a snapshot, with the countdown text as a character sequence.
pub struct ViewModel {
    pub is_break: bool,
    pub is_postponed: bool,
    pub postpone_count: u64,
    pub round: u64,
    pub time: Seq<char>,
    pub is_paused: bool,
}

impl View for ViewState {
    type V = ViewModel;

    open spec fn view(&self) -> ViewModel {
        ViewModel {
            is_break: self.is_break,
            is_postponed: self.is_postponed,
            postpone_count: self.postpone_count,
            round: self.round,
            time: self.time@,
            is_paused: self.is_paused,
        }
    }
}

/// The snapshot that a timer in state `m` publishes: break and deferral
/// flags of the phase, both counters, the countdown as clock text, and the
/// pause flag.
pub open spec fn view_model(m: TimerModel) -> ViewModel {
    ViewModel {
        is_break: m.kind == PhaseKind::ShortBreak || m.kind == PhaseKind::LongBreak,
        is_postponed: m.kind == PhaseKind::PostponedShortBreak
            || m.kind == PhaseKind::PostponedLongBreak,
        postpone_count: m.postponed_count,
        round: m.round,
        time: time_text(m.remaining as int),
        is_paused: m.paused,
    }
}

/// Law: the countdown text of every snapshot the timer publishes is
/// ASCII, so every snapshot can be put on the wire.
pub proof fn lemma_view_model_ascii(m: TimerModel)
    ensures
        vstd::utf8::is_ascii_chars(view_model(m).time),
{
    crate::text::lemma_time_text_ascii(m.remaining as int);
}

impl PomodoroTimer {
    /// Builds the snapshot for the current tick.
    pub fn view_state(&self) -> (v: ViewState)
        ensures
            v@ == view_model(self@),
    {
        let kind = self.phase_kind();
        let is_break = match kind {
            PhaseKind::ShortBreak => true,
            PhaseKind::LongBreak => true,
            _ => false,
        };
        let is_postponed = match kind {
            PhaseKind::PostponedShortBreak => true,
            PhaseKind::PostponedLongBreak => true,
            _ => false,
        };
        ViewState {
            is_break,
            is_postponed,
            postpone_count: self.postponed_count(),
            round: self.round(),
            time: format_time(self.remaining()),
            is_paused: self.is_paused(),
        }
    }
}

} // verus!
