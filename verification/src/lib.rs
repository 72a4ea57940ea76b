//! Core of a pomodoro timer service: the phase state machine with its
//! round/postpone bookkeeping, the routing of client intents, the wire
//! codec for the two message enumerations, the per-tick exchange with the
//! snapshot fan-out and the control-action queue, and the single-instance
//! startup protocol. Socket handling and the real-time tick loop live in
//! the surrounding binary.

pub mod action;
pub mod args;
pub mod channels;
pub mod codec;
pub mod config;
pub mod pomodoro;
pub mod router;
pub mod startup;
pub mod text;
pub mod view;
