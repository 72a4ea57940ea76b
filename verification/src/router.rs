//! Translation of wire-level client intents into effects, and of tick
//! output into the outbound wire message.

use vstd::prelude::*;

use crate::action::PomodoroTimerAction;
use crate::view::ViewState;

verus! {

/// Wire-level intents a client may send to the service.
#[derive(Debug, Copy, Clone, PartialEq, Eq, Structural)]
pub enum ClientToServerMsg {
    /// Shut the whole service down.
    Quit,
    /// Hard-reset the timer.
    Reset,
    /// Toggle the pause flag.
    PlayPause,
    /// End the current phase at once.
    Skip,
    /// Defer the current long break once more.
    PostPone,
    /// Close only the issuing connection.
    Detach,
    /// No-op acknowledgement; the client already receives the broadcast.
    Sync,
}

/// The only outbound payload kind: one timer snapshot.
#[derive(Debug, Clone)]
pub enum ServerToClientMsg {
    Timer(ViewState),
}

/// What the tick driver publishes on the fan-out channel.
#[derive(Debug, Clone)]
pub enum TimerOutputAction {
    Timer(ViewState),
}

/// The effect of one decoded client message.
#[derive(Debug, Copy, Clone, PartialEq, Eq, Structural)]
pub enum ClientMsgEffect {
    /// Forward this control action to the tick driver; the connection
    /// stays open.
    ForwardAction(PomodoroTimerAction),
    /// Nothing to do; the connection stays open.
    Acknowledge,
    /// Close only the issuing connection; server and timer unaffected.
    CloseConnection,
    /// Remove the backing endpoint resource and terminate the process.
    Shutdown,
}

/// The routing table: the effect of each client message.
pub open spec fn route_spec(msg: ClientToServerMsg) -> ClientMsgEffect {
    match msg {
        ClientToServerMsg::Quit => ClientMsgEffect::Shutdown,
        ClientToServerMsg::Reset =>
            ClientMsgEffect::ForwardAction(PomodoroTimerAction::ResetTimer),
        ClientToServerMsg::PlayPause =>
            ClientMsgEffect::ForwardAction(PomodoroTimerAction::PlayPause),
        ClientToServerMsg::Skip => ClientMsgEffect::ForwardAction(PomodoroTimerAction::Skip),
        ClientToServerMsg::PostPone =>
            ClientMsgEffect::ForwardAction(PomodoroTimerAction::PostponeBreak),
        ClientToServerMsg::Detach => ClientMsgEffect::CloseConnection,
        ClientToServerMsg::Sync => ClientMsgEffect::Acknowledge,
    }
}

/// Maps an inbound client message to its effect, exactly as the routing
/// table prescribes.
pub fn route_client_msg(msg: ClientToServerMsg) -> (e: ClientMsgEffect)
    ensures
        e == route_spec(msg),
{
    match msg {
        ClientToServerMsg::Quit => ClientMsgEffect::Shutdown,
        ClientToServerMsg::Reset =>
            ClientMsgEffect::ForwardAction(PomodoroTimerAction::ResetTimer),
        ClientToServerMsg::PlayPause =>
            ClientMsgEffect::ForwardAction(PomodoroTimerAction::PlayPause),
        ClientToServerMsg::Skip => ClientMsgEffect::ForwardAction(PomodoroTimerAction::Skip),
        ClientToServerMsg::PostPone =>
            ClientMsgEffect::ForwardAction(PomodoroTimerAction::PostponeBreak),
        ClientToServerMsg::Detach => ClientMsgEffect::CloseConnection,
        ClientToServerMsg::Sync => ClientMsgEffect::Acknowledge,
    }
}

/// Wraps one published tick snapshot as the outbound wire message.
pub fn timer_output_msg(action: TimerOutputAction) -> (m: ServerToClientMsg)
    ensures
        (match action {
            TimerOutputAction::Timer(v) => (match m {
                ServerToClientMsg::Timer(w) => w == v,
            }),
        }),
{
    match action {
        TimerOutputAction::Timer(state) => ServerToClientMsg::Timer(state),
    }
}

/// Law: routing sends a message to the connection-closing effect exactly
/// when it is a detach, so a detach closes the issuing connection and
/// nothing else, and no other message closes one.
pub proof fn lemma_detach_closes_only_issuer(msg: ClientToServerMsg)
    ensures
        route_spec(msg) == ClientMsgEffect::CloseConnection <==> msg
            == ClientToServerMsg::Detach,
{
}

/// Law: routing sends a message to the whole-service shutdown exactly when
/// it is a quit.
pub proof fn lemma_quit_is_only_shutdown(msg: ClientToServerMsg)
    ensures
        route_spec(msg) == ClientMsgEffect::Shutdown <==> msg == ClientToServerMsg::Quit,
{
}

} // verus!
