//! The decision core of a playback worker: a single-threaded actor that sits
//! between a controller issuing playback commands and a streaming backend.
//!
//! The worker turns commands into backend calls and backend notifications into
//! outward events, keeps track of whether audio is flowing, and owns at most one
//! pending token request. Everything here is a function from state and input to
//! next state and effects; waiting on channels, timers and the network is left
//! to the caller, which performs the effects it is handed.

pub mod command;
pub mod events;
pub mod guarantees;
pub mod ident;
pub mod worker;

pub use command::{Effect, WorkerCommand};
pub use events::{BackendEvent, OutwardEvent};
pub use ident::{ItemId, ItemKind};
pub use worker::{Outcome, Run, Turn, Wake, Worker};
