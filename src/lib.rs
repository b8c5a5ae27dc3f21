//! A synchronous control bridge over an asynchronous playback engine: the
//! shared playback flag, the start-up handoffs, track requests and the
//! token request/response path, each stated as a verified state machine.
pub mod state;
pub mod startup;
pub mod token;
pub mod track;
pub mod bridge;
