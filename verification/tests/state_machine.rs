use zentime::action::{PomodoroTimerAction, TimerAction};
use zentime::config::PomodoroTimerConfig;
use zentime::pomodoro::{countdown_directive, PhaseKind, PomodoroTimer};

fn test_config() -> PomodoroTimerConfig {
    PomodoroTimerConfig {
        timer: 2,
        minor_break: 1,
        major_break: 3,
        intervals: 4,
        postpone_limit: 2,
    }
}

#[test]
fn init_starts_fresh_interval() {
    let t = PomodoroTimer::init(test_config());
    assert_eq!(t.phase_kind(), PhaseKind::Interval);
    assert_eq!(t.round(), 0);
    assert_eq!(t.postponed_count(), 0);
    assert_eq!(t.remaining(), 2);
    assert!(!t.is_paused());
}

#[test]
fn tick_counts_down_and_completes() {
    let t = PomodoroTimer::init(test_config());
    let t = t.tick();
    assert_eq!(t.phase_kind(), PhaseKind::Interval);
    assert_eq!(t.remaining(), 1);
    let t = t.tick();
    assert_eq!(t.phase_kind(), PhaseKind::ShortBreak);
    assert_eq!(t.round(), 1);
}

#[test]
fn paused_timer_is_frozen() {
    let t = PomodoroTimer::init(test_config());
    let t = t.step(PomodoroTimerAction::PlayPause);
    assert!(t.is_paused());
    assert_eq!(t.remaining(), 2);
    let t = t.tick();
    assert_eq!(t.remaining(), 2);
    let t = t.step(PomodoroTimerAction::PlayPause);
    assert!(!t.is_paused());
    assert_eq!(t.remaining(), 1);
}

#[test]
fn skip_from_interval_enters_break_at_once() {
    let t = PomodoroTimer::init(test_config());
    assert_eq!(t.remaining(), 2);
    let t = t.step(PomodoroTimerAction::Skip);
    assert_eq!(t.phase_kind(), PhaseKind::ShortBreak);
    assert_eq!(t.round(), 1);
}

#[test]
fn reset_from_any_phase_starts_over() {
    let c = test_config();

    let interval = PomodoroTimer::init(c);
    let r = interval.step(PomodoroTimerAction::ResetTimer);
    assert_eq!(r.phase_kind(), PhaseKind::Interval);
    assert_eq!(r.round(), 0);
    assert_eq!(r.postponed_count(), 0);

    let short_break = PomodoroTimer::init(c).step(PomodoroTimerAction::Skip);
    assert_eq!(short_break.phase_kind(), PhaseKind::ShortBreak);
    let r = short_break.step(PomodoroTimerAction::ResetTimer);
    assert_eq!(r.phase_kind(), PhaseKind::Interval);
    assert_eq!(r.round(), 0);
    assert_eq!(r.postponed_count(), 0);

    let mut t = PomodoroTimer::init(c);
    while t.phase_kind() != PhaseKind::LongBreak {
        t = t.step(PomodoroTimerAction::Skip);
    }
    let r = t.step(PomodoroTimerAction::ResetTimer);
    assert_eq!(r.phase_kind(), PhaseKind::Interval);
    assert_eq!(r.round(), 0);
    assert_eq!(r.postponed_count(), 0);

    let mut t = PomodoroTimer::init(c);
    while t.phase_kind() != PhaseKind::LongBreak {
        t = t.step(PomodoroTimerAction::Skip);
    }
    let postponed = t.step(PomodoroTimerAction::PostponeBreak);
    assert_eq!(postponed.phase_kind(), PhaseKind::PostponedLongBreak);
    let r = postponed.step(PomodoroTimerAction::ResetTimer);
    assert_eq!(r.phase_kind(), PhaseKind::Interval);
    assert_eq!(r.round(), 0);
    assert_eq!(r.postponed_count(), 0);
}

#[test]
fn postpone_only_in_long_break_and_below_limit() {
    let c = test_config();

    // During a work interval the request is silently ignored.
    let t = PomodoroTimer::init(c);
    let u = t.postpone();
    assert_eq!(u.phase_kind(), PhaseKind::Interval);
    assert_eq!(u.postponed_count(), 0);
    assert_eq!(u.remaining(), 2);

    // During a short break the request is silently ignored as well.
    let t = PomodoroTimer::init(c).step(PomodoroTimerAction::Skip);
    let u = t.postpone();
    assert_eq!(u.phase_kind(), PhaseKind::ShortBreak);
    assert_eq!(u.postponed_count(), 0);

    // During a long break below the limit it defers once more.
    let mut t = PomodoroTimer::init(c);
    while t.phase_kind() != PhaseKind::LongBreak {
        t = t.step(PomodoroTimerAction::Skip);
    }
    let round_before = t.round();
    let u = t.step(PomodoroTimerAction::PostponeBreak);
    assert_eq!(u.phase_kind(), PhaseKind::PostponedLongBreak);
    assert_eq!(u.postponed_count(), 1);
    assert_eq!(u.round(), round_before);
}

#[test]
fn end_to_end_schedule() {
    let c = test_config();

    // Fresh machine: round 0, no deferrals, a work interval.
    let mut t = PomodoroTimer::init(c);
    assert_eq!(t.phase_kind(), PhaseKind::Interval);
    assert_eq!(t.round(), 0);
    assert_eq!(t.postponed_count(), 0);

    // Tick until the interval completes: a short break at round 1.
    while t.phase_kind() == PhaseKind::Interval {
        t = t.tick();
    }
    assert_eq!(t.phase_kind(), PhaseKind::ShortBreak);
    assert_eq!(t.round(), 1);

    // Skip the short break: back to work, round unchanged, no deferrals.
    t = t.step(PomodoroTimerAction::Skip);
    assert_eq!(t.phase_kind(), PhaseKind::Interval);
    assert_eq!(t.round(), 1);
    assert_eq!(t.postponed_count(), 0);

    // Continue until the long break is reached, at round 4 under the
    // one-long-break-per-four-intervals cadence.
    while t.phase_kind() != PhaseKind::LongBreak {
        t = t.step(PomodoroTimerAction::Skip);
    }
    assert_eq!(t.round(), 4);
    assert_eq!(t.postponed_count(), 0);

    // First deferral.
    t = t.step(PomodoroTimerAction::PostponeBreak);
    assert_eq!(t.phase_kind(), PhaseKind::PostponedLongBreak);
    assert_eq!(t.postponed_count(), 1);
    assert_eq!(t.round(), 4);

    // Second deferral, still eligible.
    t = t.step(PomodoroTimerAction::PostponeBreak);
    assert_eq!(t.phase_kind(), PhaseKind::PostponedLongBreak);
    assert_eq!(t.postponed_count(), 2);
    assert_eq!(t.round(), 4);

    // Third request: the limit of two is reached, so it changes nothing
    // (the tick of wall time still passes).
    t = t.step(PomodoroTimerAction::PostponeBreak);
    assert_eq!(t.phase_kind(), PhaseKind::PostponedLongBreak);
    assert_eq!(t.postponed_count(), 2);
    assert_eq!(t.round(), 4);

    // The deferred break eventually completes naturally: a fresh work
    // interval at round 5 with the deferral count reset.
    while t.phase_kind() == PhaseKind::PostponedLongBreak {
        t = t.tick();
    }
    assert_eq!(t.phase_kind(), PhaseKind::Interval);
    assert_eq!(t.round(), 5);
    assert_eq!(t.postponed_count(), 0);
}

#[test]
fn round_is_monotone_without_reset() {
    let c = test_config();
    let mut t = PomodoroTimer::init(c);
    let actions = [
        PomodoroTimerAction::NoOp,
        PomodoroTimerAction::Skip,
        PomodoroTimerAction::PlayPause,
        PomodoroTimerAction::PlayPause,
        PomodoroTimerAction::PostponeBreak,
        PomodoroTimerAction::NoOp,
        PomodoroTimerAction::Skip,
        PomodoroTimerAction::Skip,
        PomodoroTimerAction::PostponeBreak,
        PomodoroTimerAction::Skip,
        PomodoroTimerAction::NoOp,
    ];
    let mut last_round = t.round();
    for a in actions {
        t = t.step(a);
        assert!(t.round() >= last_round);
        last_round = t.round();
    }
}

#[test]
fn countdown_directives_for_each_action() {
    assert_eq!(
        countdown_directive(PomodoroTimerAction::PlayPause),
        Some(TimerAction::PlayPause)
    );
    assert_eq!(countdown_directive(PomodoroTimerAction::Skip), Some(TimerAction::End));
    assert_eq!(countdown_directive(PomodoroTimerAction::PostponeBreak), None);
    assert_eq!(countdown_directive(PomodoroTimerAction::ResetTimer), None);
    assert_eq!(countdown_directive(PomodoroTimerAction::NoOp), None);
}

#[test]
fn next_follows_transition_table() {
    let c = test_config();
    let t = PomodoroTimer::init(c);
    let t = t.next();
    assert_eq!(t.phase_kind(), PhaseKind::ShortBreak);
    assert_eq!(t.round(), 1);
    let t = t.next();
    assert_eq!(t.phase_kind(), PhaseKind::Interval);
    assert_eq!(t.round(), 1);
}

#[test]
fn long_break_completion_increments_round_and_resets_deferrals() {
    let c = test_config();
    let mut t = PomodoroTimer::init(c);
    while t.phase_kind() != PhaseKind::LongBreak {
        t = t.step(PomodoroTimerAction::Skip);
    }
    assert_eq!(t.round(), 4);
    let t = t.next();
    assert_eq!(t.phase_kind(), PhaseKind::Interval);
    assert_eq!(t.round(), 5);
    assert_eq!(t.postponed_count(), 0);
}
