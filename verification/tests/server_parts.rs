use zentime::action::PomodoroTimerAction;
use zentime::args::{get_server_args, CommonArgs, NotificationSettings, ServerSettings,
    TimerSettings};
use zentime::channels::{apply_client_msg, run_tick};
use zentime::config::PomodoroTimerConfig;
use zentime::pomodoro::{PhaseKind, PomodoroTimer};
use zentime::router::{route_client_msg, timer_output_msg, ClientMsgEffect, ClientToServerMsg,
    ServerToClientMsg, TimerOutputAction};
use zentime::startup::{startup_decision, ServerLifecycle, ServerStatus, StartupAction};
use zentime::view::ViewState;

#[test]
fn routing_table_is_exact() {
    assert_eq!(route_client_msg(ClientToServerMsg::Quit), ClientMsgEffect::Shutdown);
    assert_eq!(
        route_client_msg(ClientToServerMsg::Reset),
        ClientMsgEffect::ForwardAction(PomodoroTimerAction::ResetTimer)
    );
    assert_eq!(
        route_client_msg(ClientToServerMsg::PlayPause),
        ClientMsgEffect::ForwardAction(PomodoroTimerAction::PlayPause)
    );
    assert_eq!(
        route_client_msg(ClientToServerMsg::Skip),
        ClientMsgEffect::ForwardAction(PomodoroTimerAction::Skip)
    );
    assert_eq!(
        route_client_msg(ClientToServerMsg::PostPone),
        ClientMsgEffect::ForwardAction(PomodoroTimerAction::PostponeBreak)
    );
    assert_eq!(route_client_msg(ClientToServerMsg::Detach), ClientMsgEffect::CloseConnection);
    assert_eq!(route_client_msg(ClientToServerMsg::Sync), ClientMsgEffect::Acknowledge);
}

#[test]
fn timer_output_wraps_the_snapshot() {
    let view = ViewState {
        is_break: false,
        is_postponed: false,
        postpone_count: 0,
        round: 3,
        time: String::from("24:59"),
        is_paused: true,
    };
    let ServerToClientMsg::Timer(v) = timer_output_msg(TimerOutputAction::Timer(view));
    assert_eq!(v.round, 3);
    assert_eq!(v.time, "24:59");
    assert!(v.is_paused);
}

#[test]
fn startup_protocol_decisions() {
    assert_eq!(
        startup_decision(true, ServerStatus::Running),
        StartupAction::AlreadyRunning
    );
    assert_eq!(
        startup_decision(true, ServerStatus::Stopped),
        StartupAction::RemoveStaleAndBind
    );
    assert_eq!(startup_decision(false, ServerStatus::Stopped), StartupAction::Bind);
    assert_eq!(startup_decision(false, ServerStatus::Running), StartupAction::Bind);
}

#[test]
fn quit_unbinds_the_endpoint_for_good() {
    let s = ServerLifecycle::bind();
    assert!(s.endpoint_bound);
    assert!(!s.terminated);
    let s = s.apply_effect(ClientMsgEffect::ForwardAction(PomodoroTimerAction::Skip));
    assert!(s.endpoint_bound);
    let s = s.apply_effect(ClientMsgEffect::Shutdown);
    assert!(!s.endpoint_bound);
    assert!(s.terminated);
    let s = s.apply_effect(ClientMsgEffect::Acknowledge);
    assert!(!s.endpoint_bound);
    assert!(s.terminated);
}

#[test]
fn server_args_cover_exactly_the_set_options() {
    let args = CommonArgs {
        config: String::from("conf.toml"),
        server_config: ServerSettings {
            notifications: NotificationSettings {
                enable_bell: Some(true),
                sound_file: None,
                volume: Some(50),
                show_notification: None,
            },
            timers: TimerSettings {
                timer: Some(25),
                minor_break: None,
                major_break: Some(15),
                intervals: None,
            },
        },
    };
    let v = get_server_args(&args);
    let expected = vec![
        "-c", "conf.toml", "--enable-bell", "true", "--volume", "50", "--timer", "25",
        "--major-break", "15",
    ];
    assert_eq!(v, expected);
}

#[test]
fn server_args_with_everything_set() {
    let args = CommonArgs {
        config: String::from("zentime.toml"),
        server_config: ServerSettings {
            notifications: NotificationSettings {
                enable_bell: Some(false),
                sound_file: Some(String::from("ding.wav")),
                volume: Some(0),
                show_notification: Some(true),
            },
            timers: TimerSettings {
                timer: Some(1500),
                minor_break: Some(300),
                major_break: Some(900),
                intervals: Some(4),
            },
        },
    };
    let v = get_server_args(&args);
    let expected = vec![
        "-c", "zentime.toml", "--enable-bell", "false", "--sound-file", "ding.wav",
        "--volume", "0", "--show-notification", "true", "--timer", "1500",
        "--minor-break", "300", "--major-break", "900", "--intervals", "4",
    ];
    assert_eq!(v, expected);
}

fn test_config() -> PomodoroTimerConfig {
    PomodoroTimerConfig {
        timer: 2,
        minor_break: 1,
        major_break: 3,
        intervals: 4,
        postpone_limit: 2,
    }
}

#[test]
fn every_subscriber_sees_each_published_snapshot_in_order() {
    let (out, mut first) = tokio::sync::broadcast::channel(24);
    let mut second = out.subscribe();
    let (_actions_in, actions_out) = crossbeam::channel::unbounded();

    let t = PomodoroTimer::init(test_config());
    let (t, _) = run_tick(t, &out, &actions_out, 1);
    let (_t, _) = run_tick(t, &out, &actions_out, 1);

    for rx in [&mut first, &mut second] {
        let TimerOutputAction::Timer(a) = rx.try_recv().expect("first snapshot");
        let TimerOutputAction::Timer(b) = rx.try_recv().expect("second snapshot");
        assert_eq!(a.time, "00:02");
        assert_eq!(b.time, "00:01");
    }
}

#[test]
fn run_tick_applies_a_forwarded_action() {
    let (out, _keep) = tokio::sync::broadcast::channel(24);
    let (actions_in, actions_out) = crossbeam::channel::unbounded();

    let t = PomodoroTimer::init(test_config());
    assert_eq!(t.phase_kind(), PhaseKind::Interval);
    assert_eq!(t.remaining(), 2);

    let effect = apply_client_msg(ClientToServerMsg::Skip, &actions_in);
    assert_eq!(effect, ClientMsgEffect::ForwardAction(PomodoroTimerAction::Skip));

    let (t, published) = run_tick(t, &out, &actions_out, 50);
    assert_eq!(published.round, 0);
    assert_eq!(t.phase_kind(), PhaseKind::ShortBreak);
    assert_eq!(t.round(), 1);
}

#[test]
fn run_tick_without_pending_action_just_ticks() {
    let (out, _keep) = tokio::sync::broadcast::channel(24);
    let (_actions_in, actions_out) = crossbeam::channel::unbounded();

    let t = PomodoroTimer::init(test_config());
    let (t, published) = run_tick(t, &out, &actions_out, 1);
    assert!(!published.is_break);
    assert_eq!(published.time, "00:02");
    assert_eq!(t.phase_kind(), PhaseKind::Interval);
    assert_eq!(t.remaining(), 1);
}

#[test]
fn detached_connection_leaves_the_other_receiving() {
    let (out, mut stays) = tokio::sync::broadcast::channel(24);
    let leaves = out.subscribe();
    let (actions_in, actions_out) = crossbeam::channel::unbounded();

    let t = PomodoroTimer::init(test_config());
    let (t, _) = run_tick(t, &out, &actions_out, 1);

    // One client detaches: only its own connection closes.
    let effect = apply_client_msg(ClientToServerMsg::Detach, &actions_in);
    assert_eq!(effect, ClientMsgEffect::CloseConnection);
    drop(leaves);

    let (_t, _) = run_tick(t, &out, &actions_out, 1);

    let TimerOutputAction::Timer(a) = stays.try_recv().expect("snapshot before the detach");
    let TimerOutputAction::Timer(b) = stays.try_recv().expect("snapshot after the detach");
    assert_eq!(a.time, "00:02");
    assert_eq!(b.time, "00:01");
}
