//! A supervisor for one worker process.
//!
//! The supervisor decides; its caller acts. Every operation is a transition
//! from the supervisor's state and an event (a request, or the outcome of a
//! launch or a kill that the caller performed) to the next state and the
//! action that the caller has to perform next. The operating system is never
//! touched from here, so every transition is total, pure and proved.
//!
//! A start is one conversation: `server::run` opens it, and the caller
//! performs each `Launch` it is handed and reports the outcome to
//! `WebServer::start` until it is handed `Finished`. A shutdown is one call
//! of `server::shutdown`, one kill where one is asked for, and one call of
//! `error::shutdown_result`. A caller that shares the supervisor between
//! threads keeps it locked for the length of a conversation, pauses
//! included, so that a shutdown waits for a start in progress.

pub mod error;
pub mod laws;
pub mod model;
pub mod server;
