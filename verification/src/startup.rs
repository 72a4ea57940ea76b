//! The single-instance startup protocol and the lifecycle of the backing
//! endpoint resource.

use vstd::prelude::*;

use crate::router::ClientMsgEffect;

verus! {

/// Verdict of the liveness probe against an already existing endpoint.
#[derive(Debug, Copy, Clone, PartialEq, Eq, Structural)]
pub enum ServerStatus {
    Running,
    Stopped,
}

/// What a starting service process must do about the endpoint resource.
#[derive(Debug, Copy, Clone, PartialEq, Eq, Structural)]
pub enum StartupAction {
    /// A live instance already serves the endpoint: return without side
    /// effects.
    AlreadyRunning,
    /// A stale resource is left over: remove it, then bind.
    RemoveStaleAndBind,
    /// Nothing is in the way: bind the endpoint.
    Bind,
}

/// The startup protocol: an existing endpoint with a live server behind it
/// means another instance runs; an existing endpoint without one is stale
/// and is removed first; otherwise the endpoint is bound directly.
pub open spec fn startup_spec(socket_exists: bool, status: ServerStatus) -> StartupAction {
    if socket_exists && status == ServerStatus::Running {
        StartupAction::AlreadyRunning
    } else if socket_exists {
        StartupAction::RemoveStaleAndBind
    } else {
        StartupAction::Bind
    }
}

/// Decides the startup step from what the probe observed.
pub fn startup_decision(socket_exists: bool, status: ServerStatus) -> (a: StartupAction)
    ensures
        a == startup_spec(socket_exists, status),
{
    if socket_exists {
        match status {
            ServerStatus::Running => StartupAction::AlreadyRunning,
            ServerStatus::Stopped => StartupAction::RemoveStaleAndBind,
        }
    } else {
        StartupAction::Bind
    }
}

/// The service's view of its endpoint resource: whether it is bound and
/// whether the process has been told to terminate.
#[derive(Debug, Copy, Clone, PartialEq, Eq, Structural)]
pub struct ServerLifecycle {
    pub endpoint_bound: bool,
    pub terminated: bool,
}

/// How one routed client-message effect changes the endpoint lifecycle: a
/// shutdown removes the backing resource and terminates; everything else
/// leaves the lifecycle untouched.
pub open spec fn apply_effect_model(s: ServerLifecycle, e: ClientMsgEffect) -> ServerLifecycle {
    match e {
        ClientMsgEffect::Shutdown => ServerLifecycle { endpoint_bound: false, terminated: true },
        _ => s,
    }
}

/// Folding a whole sequence of effects over the lifecycle.
pub open spec fn apply_effects_model(s: ServerLifecycle, es: Seq<ClientMsgEffect>)
    -> ServerLifecycle
    decreases es.len(),
{
    if es.len() == 0 {
        s
    } else {
        apply_effects_model(apply_effect_model(s, es[0]), es.skip(1))
    }
}

impl ServerLifecycle {
    /// New connections are accepted only while the endpoint is bound and
    /// no shutdown has been seen.
    pub open spec fn can_accept(self) -> bool {
        self.endpoint_bound && !self.terminated
    }

    /// The lifecycle right after the endpoint was bound.
    pub fn bind() -> (s: Self)
        ensures
            s.endpoint_bound,
            !s.terminated,
            s.can_accept(),
    {
        ServerLifecycle { endpoint_bound: true, terminated: false }
    }

    /// Applies the lifecycle part of one routed effect.
    pub fn apply_effect(self, e: ClientMsgEffect) -> (s: Self)
        ensures
            s == apply_effect_model(self, e),
    {
        match e {
            ClientMsgEffect::Shutdown => ServerLifecycle {
                endpoint_bound: false,
                terminated: true,
            },
            _ => self,
        }
    }
}

/// Law: once a shutdown effect has been applied, the backing endpoint
/// resource is gone and no further connection is ever accepted, whatever
/// effects follow.
pub proof fn lemma_quit_stops_accepts(s: ServerLifecycle, es: Seq<ClientMsgEffect>)
    ensures
        !apply_effect_model(s, ClientMsgEffect::Shutdown).endpoint_bound,
        !apply_effects_model(apply_effect_model(s, ClientMsgEffect::Shutdown), es).can_accept(),
    decreases es.len(),
{
    let down = apply_effect_model(s, ClientMsgEffect::Shutdown);
    if es.len() > 0 {
        assert(apply_effect_model(down, es[0]) == down);
        lemma_quit_stops_accepts(s, es.skip(1));
        assert(apply_effects_model(down, es) == apply_effects_model(
            apply_effect_model(down, es[0]), es.skip(1)));
    }
}

} // verus!
