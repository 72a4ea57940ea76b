//! The tick driver's exchange with the outside world: publishing each
//! snapshot on the broadcast fan-out and pulling at most one pending
//! control action per tick from the inbound queue.

use vstd::prelude::*;

use crate::action::PomodoroTimerAction;
use crate::pomodoro::{step_model, PomodoroTimer};
use crate::router::{route_spec, route_client_msg, ClientMsgEffect, ClientToServerMsg,
    TimerOutputAction};
use crate::view::{view_model, ViewState};

verus! {

/// The sending half of the snapshot fan-out channel.
#[verifier::external_type_specification]
#[verifier::external_body]
#[verifier::reject_recursive_types(T)]
pub struct ExBroadcastSender<T>(tokio::sync::broadcast::Sender<T>);

/// The sending half of the control-action queue.
#[verifier::external_type_specification]
#[verifier::external_body]
#[verifier::reject_recursive_types(T)]
pub struct ExChannelSender<T>(crossbeam::channel::Sender<T>);

/// The receiving half of the control-action queue.
#[verifier::external_type_specification]
#[verifier::external_body]
#[verifier::reject_recursive_types(T)]
pub struct ExChannelReceiver<T>(crossbeam::channel::Receiver<T>);

/// Relies on `tokio::sync::broadcast::Sender::send`: the snapshot is
/// placed in the buffer of every currently subscribed receiver, and the
/// call fails exactly when no receiver exists. Whether anyone was
/// subscribed depends on the other tasks, so only the report is returned.
#[verifier::external_body]
fn publish_snapshot(
    out: &tokio::sync::broadcast::Sender<TimerOutputAction>,
    v: ViewState,
) -> (delivered: bool) {
    out.send(TimerOutputAction::Timer(v)).is_ok()
}

/// Relies on `crossbeam_channel::Sender::send`: the action is enqueued for
/// the tick driver unless every receiver is gone.
#[verifier::external_body]
fn send_action(
    input: &crossbeam::channel::Sender<PomodoroTimerAction>,
    action: PomodoroTimerAction,
) -> (accepted: bool) {
    input.send(action).is_ok()
}

/// Relies on `crossbeam_channel::Receiver::recv_timeout`: yields one
/// pending action if any arrives within the bound, and nothing on timeout
/// or when every sender is gone. Which action arrives depends on the other
/// threads, so nothing is promised of the value.
#[verifier::external_body]
fn poll_action(
    input: &crossbeam::channel::Receiver<PomodoroTimerAction>,
    wait_ms: u64,
) -> (pending: Option<PomodoroTimerAction>) {
    match input.recv_timeout(std::time::Duration::from_millis(wait_ms)) {
        Ok(action) => Some(action),
        Err(_) => None,
    }
}

/// An absent control action within the tick's wait window means "no
/// action this tick", never an error.
pub fn action_or_noop(pending: Option<PomodoroTimerAction>) -> (action: PomodoroTimerAction)
    ensures
        action == (match pending {
            Some(a) => a,
            None => PomodoroTimerAction::NoOp,
        }),
{
    match pending {
        Some(a) => a,
        None => PomodoroTimerAction::NoOp,
    }
}

/// One tick of the tick driver: build the snapshot of the current state,
/// publish it on the fan-out, then consume at most one pending control
/// action, waiting no longer than `wait_ms`. Whatever action arrived — or
/// none — the machine advances by exactly one evaluation step for it, and
/// the published snapshot is the one built from the state at the start of
/// the tick.
pub fn run_tick(
    timer: PomodoroTimer,
    out: &tokio::sync::broadcast::Sender<TimerOutputAction>,
    input: &crossbeam::channel::Receiver<PomodoroTimerAction>,
    wait_ms: u64,
) -> (r: (PomodoroTimer, ViewState))
    requires
        timer.wf(),
        timer@.round < u64::MAX,
    ensures
        r.1@ == view_model(timer@),
        exists|a: PomodoroTimerAction| r.0@ == step_model(timer@, a),
        r.0.wf(),
{
    let v = timer.view_state();
    let _delivered = publish_snapshot(out, v.clone());
    let action = action_or_noop(poll_action(input, wait_ms));
    let next = timer.step(action);
    proof {
        assert(next@ == step_model(timer@, action));
    }
    (next, v)
}

/// Handles one decoded client message at a connection: forwards the mapped
/// control action into the tick driver's queue, and returns the routed
/// effect for the connection to act on.
pub fn apply_client_msg(
    msg: ClientToServerMsg,
    input: &crossbeam::channel::Sender<PomodoroTimerAction>,
) -> (e: ClientMsgEffect)
    ensures
        e == route_spec(msg),
{
    let effect = route_client_msg(msg);
    match effect {
        ClientMsgEffect::ForwardAction(action) => {
            let _accepted = send_action(input, action);
        },
        _ => {},
    }
    effect
}

} // verus!
