//! The pomodoro phase state machine.
//!
//! Each phase is a distinct variant of [`PomodoroTimer`], carrying the
//! configuration, the round bookkeeping and the countdown of the running
//! phase. Transitions consume the old variant by value and produce a new
//! one, so an operation that is illegal for a phase simply has no effect
//! there. The mathematical model of a timer is [`TimerModel`]; every
//! executable transition returns exactly what the corresponding model
//! function says.

use vstd::prelude::*;

use crate::action::{PomodoroTimerAction, TimerAction};
use crate::config::PomodoroTimerConfig;

verus! {

/// Round bookkeeping carried forward across phase transitions.
#[derive(Debug, Copy, Clone, PartialEq, Eq, Structural)]
pub struct PomodoroTimerState {
    /// Counts completed interval cycles; monotone except for an explicit reset.
    pub round: u64,
    /// How many times the pending long break has been deferred in a row.
    pub postponed_count: u64,
}

/// Discriminates the five phases at the model level.
#[derive(Debug, Copy, Clone, PartialEq, Eq, Structural)]
pub enum PhaseKind {
    Interval,
    ShortBreak,
    LongBreak,
    PostponedShortBreak,
    PostponedLongBreak,
}

/// The mathematical state of a timer: phase, counters, countdown, pause flag
/// and the immutable configuration.
#[derive(Debug, Copy, Clone, PartialEq, Eq, Structural)]
pub struct TimerModel {
    pub kind: PhaseKind,
    pub round: u64,
    pub postponed_count: u64,
    pub remaining: u64,
    pub paused: bool,
    pub config: PomodoroTimerConfig,
}

/// Pomodoro timer phase designating a work interval.
#[derive(Debug, Copy, Clone, PartialEq, Eq, Structural)]
pub struct Interval {
    pub config: PomodoroTimerConfig,
    pub shared_state: PomodoroTimerState,
    pub remaining: u64,
    pub paused: bool,
}

/// Pomodoro timer phase designating a short break.
#[derive(Debug, Copy, Clone, PartialEq, Eq, Structural)]
pub struct ShortBreak {
    pub config: PomodoroTimerConfig,
    pub shared_state: PomodoroTimerState,
    pub remaining: u64,
    pub paused: bool,
}

/// Pomodoro timer phase designating a long break.
#[derive(Debug, Copy, Clone, PartialEq, Eq, Structural)]
pub struct LongBreak {
    pub config: PomodoroTimerConfig,
    pub shared_state: PomodoroTimerState,
    pub remaining: u64,
    pub paused: bool,
}

/// Pomodoro timer phase designating a deferred short break. Short-break
/// postponement has no requesting operation here, so this phase is never
/// produced by the transitions below; it exists so that the data model is
/// closed under the full phase vocabulary.
#[derive(Debug, Copy, Clone, PartialEq, Eq, Structural)]
pub struct PostponedShortBreak {
    pub config: PomodoroTimerConfig,
    pub shared_state: PomodoroTimerState,
    pub remaining: u64,
    pub paused: bool,
}

/// Pomodoro timer phase designating a deferred long break: another stretch
/// of work taken in place of the break that was due.
#[derive(Debug, Copy, Clone, PartialEq, Eq, Structural)]
pub struct PostponedLongBreak {
    pub config: PomodoroTimerConfig,
    pub shared_state: PomodoroTimerState,
    pub remaining: u64,
    pub paused: bool,
}

/// The active state-machine instance: one variant per phase.
#[derive(Debug, Copy, Clone, PartialEq, Eq, Structural)]
pub enum PomodoroTimer {
    Interval(Interval),
    ShortBreak(ShortBreak),
    LongBreak(LongBreak),
    PostponedShortBreak(PostponedShortBreak),
    PostponedLongBreak(PostponedLongBreak),
}

impl View for PomodoroTimer {
    type V = TimerModel;

    open spec fn view(&self) -> TimerModel {
        match *self {
            PomodoroTimer::Interval(p) => TimerModel {
                kind: PhaseKind::Interval,
                round: p.shared_state.round,
                postponed_count: p.shared_state.postponed_count,
                remaining: p.remaining,
                paused: p.paused,
                config: p.config,
            },
            PomodoroTimer::ShortBreak(p) => TimerModel {
                kind: PhaseKind::ShortBreak,
                round: p.shared_state.round,
                postponed_count: p.shared_state.postponed_count,
                remaining: p.remaining,
                paused: p.paused,
                config: p.config,
            },
            PomodoroTimer::LongBreak(p) => TimerModel {
                kind: PhaseKind::LongBreak,
                round: p.shared_state.round,
                postponed_count: p.shared_state.postponed_count,
                remaining: p.remaining,
                paused: p.paused,
                config: p.config,
            },
            PomodoroTimer::PostponedShortBreak(p) => TimerModel {
                kind: PhaseKind::PostponedShortBreak,
                round: p.shared_state.round,
                postponed_count: p.shared_state.postponed_count,
                remaining: p.remaining,
                paused: p.paused,
                config: p.config,
            },
            PomodoroTimer::PostponedLongBreak(p) => TimerModel {
                kind: PhaseKind::PostponedLongBreak,
                round: p.shared_state.round,
                postponed_count: p.shared_state.postponed_count,
                remaining: p.remaining,
                paused: p.paused,
                config: p.config,
            },
        }
    }
}

/// The model of a freshly started timer: a work interval, both counters at
/// zero, full countdown, not paused.
pub open spec fn init_model(config: PomodoroTimerConfig) -> TimerModel {
    TimerModel {
        kind: PhaseKind::Interval,
        round: 0,
        postponed_count: 0,
        remaining: config.timer,
        paused: false,
        config,
    }
}

/// Completing a work interval enters round `round + 1`; every
/// `config.intervals`-th round starts with a long break, the others with a
/// short one.
pub open spec fn interval_successor_is_long(m: TimerModel) -> bool {
    ((m.round + 1) as u64) % m.config.intervals == 0
}

/// The phase that follows the current one when its countdown elapses or it
/// is skipped: the transition table of the machine.
pub open spec fn complete_model(m: TimerModel) -> TimerModel {
    match m.kind {
        PhaseKind::Interval => {
            if interval_successor_is_long(m) {
                TimerModel {
                    kind: PhaseKind::LongBreak,
                    round: (m.round + 1) as u64,
                    remaining: m.config.major_break,
                    ..m
                }
            } else {
                TimerModel {
                    kind: PhaseKind::ShortBreak,
                    round: (m.round + 1) as u64,
                    remaining: m.config.minor_break,
                    ..m
                }
            }
        },
        PhaseKind::ShortBreak => TimerModel {
            kind: PhaseKind::Interval,
            postponed_count: 0,
            remaining: m.config.timer,
            ..m
        },
        PhaseKind::LongBreak => TimerModel {
            kind: PhaseKind::Interval,
            round: (m.round + 1) as u64,
            postponed_count: 0,
            remaining: m.config.timer,
            ..m
        },
        PhaseKind::PostponedShortBreak => TimerModel {
            kind: PhaseKind::Interval,
            postponed_count: 0,
            remaining: m.config.timer,
            ..m
        },
        PhaseKind::PostponedLongBreak => TimerModel {
            kind: PhaseKind::Interval,
            round: (m.round + 1) as u64,
            postponed_count: 0,
            remaining: m.config.timer,
            ..m
        },
    }
}

/// A postpone request is honoured only during a (possibly already deferred)
/// long break, and only below the configured limit.
pub open spec fn postpone_eligible(m: TimerModel) -> bool {
    &&& (m.kind == PhaseKind::LongBreak || m.kind == PhaseKind::PostponedLongBreak)
    &&& m.postponed_count < m.config.postpone_limit
}

/// Honoured postpone: one more deferral, a fresh work-length countdown, the
/// round untouched. An ineligible request changes nothing.
pub open spec fn postpone_model(m: TimerModel) -> TimerModel {
    if postpone_eligible(m) {
        TimerModel {
            kind: PhaseKind::PostponedLongBreak,
            postponed_count: (m.postponed_count + 1) as u64,
            remaining: m.config.timer,
            ..m
        }
    } else {
        m
    }
}

/// A hard reset aborts the current phase and starts over from scratch.
pub open spec fn reset_model(m: TimerModel) -> TimerModel {
    init_model(m.config)
}

/// One second of wall time: a paused phase is frozen; otherwise the
/// countdown decreases, and the phase completes when it runs out.
pub open spec fn tick_model(m: TimerModel) -> TimerModel {
    if m.paused {
        m
    } else if m.remaining > 1 {
        TimerModel { remaining: (m.remaining - 1) as u64, ..m }
    } else {
        complete_model(m)
    }
}

/// One full evaluation step of the machine: consume at most one control
/// action, then let wall time advance unless the action already replaced
/// the phase.
pub open spec fn step_model(m: TimerModel, a: PomodoroTimerAction) -> TimerModel {
    match a {
        PomodoroTimerAction::NoOp => tick_model(m),
        PomodoroTimerAction::PlayPause => tick_model(TimerModel { paused: !m.paused, ..m }),
        PomodoroTimerAction::Skip => complete_model(m),
        PomodoroTimerAction::ResetTimer => reset_model(m),
        PomodoroTimerAction::PostponeBreak => {
            if postpone_eligible(m) {
                postpone_model(m)
            } else {
                tick_model(m)
            }
        },
    }
}

impl TimerModel {
    /// Well-formedness: a valid cadence, the deferral count within its
    /// limit, and deferrals recorded only while a deferred long break runs.
    pub open spec fn wf(self) -> bool {
        &&& self.config.wf()
        &&& self.postponed_count <= self.config.postpone_limit
        &&& self.kind != PhaseKind::PostponedLongBreak ==> self.postponed_count == 0
    }
}

impl PomodoroTimer {
    /// Well-formedness of the executable machine is that of its model.
    pub open spec fn wf(self) -> bool {
        self@.wf()
    }

    /// Rebuilds the variant that a model prescribes. Internal helper for
    /// the transitions below.
    fn of_model(config: PomodoroTimerConfig, kind: PhaseKind, round: u64,
        postponed_count: u64, remaining: u64, paused: bool) -> (t: Self)
        ensures
            t@ == (TimerModel { kind, round, postponed_count, remaining, paused, config }),
    {
        let shared_state = PomodoroTimerState { round, postponed_count };
        match kind {
            PhaseKind::Interval => PomodoroTimer::Interval(Interval {
                config, shared_state, remaining, paused,
            }),
            PhaseKind::ShortBreak => PomodoroTimer::ShortBreak(ShortBreak {
                config, shared_state, remaining, paused,
            }),
            PhaseKind::LongBreak => PomodoroTimer::LongBreak(LongBreak {
                config, shared_state, remaining, paused,
            }),
            PhaseKind::PostponedShortBreak => PomodoroTimer::PostponedShortBreak(
                PostponedShortBreak { config, shared_state, remaining, paused },
            ),
            PhaseKind::PostponedLongBreak => PomodoroTimer::PostponedLongBreak(
                PostponedLongBreak { config, shared_state, remaining, paused },
            ),
        }
    }

    /// A fresh machine at round zero, ready to run its first work interval.
    pub fn init(config: PomodoroTimerConfig) -> (t: Self)
        requires
            config.wf(),
        ensures
            t@ == init_model(config),
            t.wf(),
    {
        PomodoroTimer::Interval(Interval {
            config,
            shared_state: PomodoroTimerState { round: 0, postponed_count: 0 },
            remaining: config.timer,
            paused: false,
        })
    }

    /// Ends the current phase as if its countdown had elapsed and enters
    /// the successor that the transition table prescribes.
    pub fn next(self) -> (t: Self)
        requires
            self.wf(),
            self@.round < u64::MAX,
        ensures
            t@ == complete_model(self@),
            t.wf(),
    {
        match self {
            PomodoroTimer::Interval(p) => {
                let round = p.shared_state.round + 1;
                if round % p.config.intervals == 0 {
                    Self::of_model(p.config, PhaseKind::LongBreak, round,
                        p.shared_state.postponed_count, p.config.major_break, p.paused)
                } else {
                    Self::of_model(p.config, PhaseKind::ShortBreak, round,
                        p.shared_state.postponed_count, p.config.minor_break, p.paused)
                }
            },
            PomodoroTimer::ShortBreak(p) => Self::of_model(p.config, PhaseKind::Interval,
                p.shared_state.round, 0, p.config.timer, p.paused),
            PomodoroTimer::LongBreak(p) => Self::of_model(p.config, PhaseKind::Interval,
                p.shared_state.round + 1, 0, p.config.timer, p.paused),
            PomodoroTimer::PostponedShortBreak(p) => Self::of_model(p.config, PhaseKind::Interval,
                p.shared_state.round, 0, p.config.timer, p.paused),
            PomodoroTimer::PostponedLongBreak(p) => Self::of_model(p.config, PhaseKind::Interval,
                p.shared_state.round + 1, 0, p.config.timer, p.paused),
        }
    }

    /// Defers the pending long break once more, when the machine is in a
    /// (possibly already deferred) long break below the postpone limit; any
    /// other request is silently ignored.
    pub fn postpone(self) -> (t: Self)
        requires
            self.wf(),
        ensures
            t@ == postpone_model(self@),
            t.wf(),
    {
        match self {
            PomodoroTimer::LongBreak(p) => {
                if p.shared_state.postponed_count < p.config.postpone_limit {
                    Self::of_model(p.config, PhaseKind::PostponedLongBreak,
                        p.shared_state.round, p.shared_state.postponed_count + 1,
                        p.config.timer, p.paused)
                } else {
                    PomodoroTimer::LongBreak(p)
                }
            },
            PomodoroTimer::PostponedLongBreak(p) => {
                if p.shared_state.postponed_count < p.config.postpone_limit {
                    Self::of_model(p.config, PhaseKind::PostponedLongBreak,
                        p.shared_state.round, p.shared_state.postponed_count + 1,
                        p.config.timer, p.paused)
                } else {
                    PomodoroTimer::PostponedLongBreak(p)
                }
            },
            other => other,
        }
    }

    /// Aborts the current phase and hard-resets to a fresh work interval
    /// with both counters back at zero.
    pub fn reset(self) -> (t: Self)
        requires
            self.wf(),
        ensures
            t@ == reset_model(self@),
            t.wf(),
    {
        let config = self.config();
        Self::init(config)
    }

    /// One second of wall time for the active phase.
    pub fn tick(self) -> (t: Self)
        requires
            self.wf(),
            self@.round < u64::MAX,
        ensures
            t@ == tick_model(self@),
            t.wf(),
    {
        if self.is_paused() {
            self
        } else if self.remaining() > 1 {
            let r = self.remaining() - 1;
            Self::of_model(self.config(), self.phase_kind(), self.round(),
                self.postponed_count(), r, self.is_paused())
        } else {
            self.next()
        }
    }

    /// One full evaluation step: apply at most one control action, then let
    /// wall time advance unless the action already replaced the phase.
    pub fn step(self, action: PomodoroTimerAction) -> (t: Self)
        requires
            self.wf(),
            self@.round < u64::MAX,
        ensures
            t@ == step_model(self@, action),
            t.wf(),
    {
        match action {
            PomodoroTimerAction::NoOp => self.tick(),
            PomodoroTimerAction::PlayPause => {
                let toggled = Self::of_model(self.config(), self.phase_kind(), self.round(),
                    self.postponed_count(), self.remaining(), !self.is_paused());
                toggled.tick()
            },
            PomodoroTimerAction::Skip => self.next(),
            PomodoroTimerAction::ResetTimer => self.reset(),
            PomodoroTimerAction::PostponeBreak => {
                if self.can_postpone() {
                    self.postpone()
                } else {
                    self.tick()
                }
            },
        }
    }

    /// Whether a postpone request would be honoured right now.
    pub fn can_postpone(&self) -> (b: bool)
        ensures
            b == postpone_eligible(self@),
    {
        match self {
            PomodoroTimer::LongBreak(p) =>
                p.shared_state.postponed_count < p.config.postpone_limit,
            PomodoroTimer::PostponedLongBreak(p) =>
                p.shared_state.postponed_count < p.config.postpone_limit,
            _ => false,
        }
    }

    /// The phase the machine is in.
    pub fn phase_kind(&self) -> (k: PhaseKind)
        ensures
            k == self@.kind,
    {
        match self {
            PomodoroTimer::Interval(_) => PhaseKind::Interval,
            PomodoroTimer::ShortBreak(_) => PhaseKind::ShortBreak,
            PomodoroTimer::LongBreak(_) => PhaseKind::LongBreak,
            PomodoroTimer::PostponedShortBreak(_) => PhaseKind::PostponedShortBreak,
            PomodoroTimer::PostponedLongBreak(_) => PhaseKind::PostponedLongBreak,
        }
    }

    /// The configuration the machine was started with.
    pub fn config(&self) -> (c: PomodoroTimerConfig)
        ensures
            c == self@.config,
    {
        match self {
            PomodoroTimer::Interval(p) => p.config,
            PomodoroTimer::ShortBreak(p) => p.config,
            PomodoroTimer::LongBreak(p) => p.config,
            PomodoroTimer::PostponedShortBreak(p) => p.config,
            PomodoroTimer::PostponedLongBreak(p) => p.config,
        }
    }

    /// Completed interval cycles so far.
    pub fn round(&self) -> (r: u64)
        ensures
            r == self@.round,
    {
        match self {
            PomodoroTimer::Interval(p) => p.shared_state.round,
            PomodoroTimer::ShortBreak(p) => p.shared_state.round,
            PomodoroTimer::LongBreak(p) => p.shared_state.round,
            PomodoroTimer::PostponedShortBreak(p) => p.shared_state.round,
            PomodoroTimer::PostponedLongBreak(p) => p.shared_state.round,
        }
    }

    /// How often the pending long break has been deferred.
    pub fn postponed_count(&self) -> (c: u64)
        ensures
            c == self@.postponed_count,
    {
        match self {
            PomodoroTimer::Interval(p) => p.shared_state.postponed_count,
            PomodoroTimer::ShortBreak(p) => p.shared_state.postponed_count,
            PomodoroTimer::LongBreak(p) => p.shared_state.postponed_count,
            PomodoroTimer::PostponedShortBreak(p) => p.shared_state.postponed_count,
            PomodoroTimer::PostponedLongBreak(p) => p.shared_state.postponed_count,
        }
    }

    /// Seconds left in the current phase.
    pub fn remaining(&self) -> (r: u64)
        ensures
            r == self@.remaining,
    {
        match self {
            PomodoroTimer::Interval(p) => p.remaining,
            PomodoroTimer::ShortBreak(p) => p.remaining,
            PomodoroTimer::LongBreak(p) => p.remaining,
            PomodoroTimer::PostponedShortBreak(p) => p.remaining,
            PomodoroTimer::PostponedLongBreak(p) => p.remaining,
        }
    }

    /// Whether the countdown is currently frozen.
    pub fn is_paused(&self) -> (b: bool)
        ensures
            b == self@.paused,
    {
        match self {
            PomodoroTimer::Interval(p) => p.paused,
            PomodoroTimer::ShortBreak(p) => p.paused,
            PomodoroTimer::LongBreak(p) => p.paused,
            PomodoroTimer::PostponedShortBreak(p) => p.paused,
            PomodoroTimer::PostponedLongBreak(p) => p.paused,
        }
    }
}

/// The directive the running countdown receives for a control action: a
/// skip ends the countdown at once as if its duration had elapsed, a
/// play/pause toggles it, and every other action is handled by the phase
/// transitions alone.
pub open spec fn countdown_directive_spec(a: PomodoroTimerAction) -> Option<TimerAction> {
    match a {
        PomodoroTimerAction::PlayPause => Some(TimerAction::PlayPause),
        PomodoroTimerAction::Skip => Some(TimerAction::End),
        _ => None,
    }
}

/// Maps a control action to the directive for the running countdown.
pub fn countdown_directive(a: PomodoroTimerAction) -> (d: Option<TimerAction>)
    ensures
        d == countdown_directive_spec(a),
{
    match a {
        PomodoroTimerAction::PlayPause => Some(TimerAction::PlayPause),
        PomodoroTimerAction::Skip => Some(TimerAction::End),
        _ => None,
    }
}

/// Running a whole schedule of control actions, one evaluation step each.
pub open spec fn run_model(m: TimerModel, actions: Seq<PomodoroTimerAction>) -> TimerModel
    decreases actions.len(),
{
    if actions.len() == 0 {
        m
    } else {
        run_model(step_model(m, actions[0]), actions.skip(1))
    }
}

/// Law: one evaluation step never decreases the round, unless it is an
/// explicit reset.
pub proof fn lemma_round_monotone(m: TimerModel, a: PomodoroTimerAction)
    requires
        m.round < u64::MAX,
        a != PomodoroTimerAction::ResetTimer,
    ensures
        step_model(m, a).round >= m.round,
{
}

/// Law: one evaluation step raises the round by at most one.
pub proof fn lemma_round_increment_bound(m: TimerModel, a: PomodoroTimerAction)
    requires
        m.round < u64::MAX,
    ensures
        step_model(m, a).round <= m.round + 1,
{
}

/// Law: across any schedule free of resets, the round never decreases.
/// The bound on the starting round keeps every intermediate round within
/// the machine word.
pub proof fn lemma_round_monotone_run(m: TimerModel, actions: Seq<PomodoroTimerAction>)
    requires
        m.round + actions.len() <= u64::MAX,
        forall|i: int| 0 <= i < actions.len() ==> actions[i] != PomodoroTimerAction::ResetTimer,
    ensures
        run_model(m, actions).round >= m.round,
    decreases actions.len(),
{
    if actions.len() > 0 {
        let n = step_model(m, actions[0]);
        lemma_round_monotone(m, actions[0]);
        lemma_round_increment_bound(m, actions[0]);
        assert(forall|i: int| 0 <= i < actions.skip(1).len() ==>
            actions.skip(1)[i] != PomodoroTimerAction::ResetTimer);
        lemma_round_monotone_run(n, actions.skip(1));
    }
}

/// Law: along any schedule of control actions, the machine stays
/// well-formed — in particular the deferral count never exceeds the
/// configured limit. The bound on the starting round keeps every
/// intermediate round within the machine word.
pub proof fn lemma_run_preserves_wf(m: TimerModel, actions: Seq<PomodoroTimerAction>)
    requires
        m.wf(),
        m.round + actions.len() <= u64::MAX,
    ensures
        run_model(m, actions).wf(),
    decreases actions.len(),
{
    if actions.len() > 0 {
        lemma_step_preserves_wf(m, actions[0]);
        lemma_round_increment_bound(m, actions[0]);
        lemma_run_preserves_wf(step_model(m, actions[0]), actions.skip(1));
    }
}

/// Law: an explicit reset yields a fresh work interval with round and
/// deferral count both back at zero, from any phase.
pub proof fn lemma_reset(m: TimerModel)
    ensures
        step_model(m, PomodoroTimerAction::ResetTimer) == init_model(m.config),
        step_model(m, PomodoroTimerAction::ResetTimer).kind == PhaseKind::Interval,
        step_model(m, PomodoroTimerAction::ResetTimer).round == 0,
        step_model(m, PomodoroTimerAction::ResetTimer).postponed_count == 0,
{
}

/// Law: a postpone during a (possibly already deferred) long break below
/// the limit defers once more, leaving the round untouched; once the count
/// has reached the limit the request changes nothing.
pub proof fn lemma_postpone(m: TimerModel)
    ensures
        postpone_eligible(m) ==> step_model(m, PomodoroTimerAction::PostponeBreak)
            == postpone_model(m),
        postpone_eligible(m) ==> postpone_model(m).kind == PhaseKind::PostponedLongBreak,
        postpone_eligible(m) ==> postpone_model(m).postponed_count == m.postponed_count + 1,
        postpone_eligible(m) ==> postpone_model(m).round == m.round,
        m.postponed_count >= m.config.postpone_limit ==> postpone_model(m) == m,
{
}

/// Law: a skip during a work interval enters the next break phase at once,
/// whatever countdown was left; the break is the long one exactly on the
/// configured cadence.
pub proof fn lemma_skip_interval(m: TimerModel)
    requires
        m.kind == PhaseKind::Interval,
        m.round < u64::MAX,
    ensures
        step_model(m, PomodoroTimerAction::Skip).kind == PhaseKind::LongBreak
            || step_model(m, PomodoroTimerAction::Skip).kind == PhaseKind::ShortBreak,
        step_model(m, PomodoroTimerAction::Skip).kind == PhaseKind::LongBreak
            <==> interval_successor_is_long(m),
        step_model(m, PomodoroTimerAction::Skip).round == m.round + 1,
{
}

/// Law: every evaluation step preserves well-formedness; in particular the
/// deferral count never exceeds the configured limit.
pub proof fn lemma_step_preserves_wf(m: TimerModel, a: PomodoroTimerAction)
    requires
        m.wf(),
        m.round < u64::MAX,
    ensures
        step_model(m, a).wf(),
{
}

} // verus!
