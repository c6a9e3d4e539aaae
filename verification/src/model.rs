//! The supervisor as a mathematical state machine: its state as a plain
//! value, and each transition as a function on such values.

use vstd::prelude::*;
use crate::error::SupervisorError;
use crate::server::{Attempt, KillAction, ProcessHandle, ServerMode, StartAction};

verus! {

/// What a supervisor holds: the tracked worker, if any, and the launch mode.
pub ghost struct ServerView<G, S> {
    pub handle: Option<ProcessHandle<G, S>>,
    pub mode: ServerMode,
}

/// The supervisor that a run request works on: the existing one, or a fresh
/// one in the requested mode.
pub open spec fn adopt<G, S>(slot: Option<ServerView<G, S>>, mode: ServerMode) -> ServerView<G, S> {
    match slot {
        Some(server) => server,
        None => ServerView { handle: None, mode: mode },
    }
}

/// The first action of a start under a policy of `retries` attempts.
pub open spec fn begin_start<G, S>(server: ServerView<G, S>, retries: usize, delay_ms: u64) -> StartAction {
    if server.handle.is_some() {
        StartAction::Finished(Ok(()))
    } else if retries == 0 {
        StartAction::Finished(Err(SupervisorError::SpawnFailure { attempts: 0, last_error: None }))
    } else {
        StartAction::Launch {
            wait_ms: 0,
            attempt: Attempt { mode: server.mode, number: 1, retries: retries, delay_ms: delay_ms },
        }
    }
}

/// The state and the action that follow the outcome of one launch attempt.
pub open spec fn after_spawn<G, S>(
    server: ServerView<G, S>,
    attempt: Attempt,
    outcome: Result<ProcessHandle<G, S>, String>,
) -> (ServerView<G, S>, StartAction) {
    match outcome {
        Ok(handle) => (
            ServerView { handle: Some(handle), mode: server.mode },
            StartAction::Finished(Ok(())),
        ),
        Err(report) => if attempt.number < attempt.retries {
            (
                server,
                StartAction::Launch {
                    wait_ms: attempt.delay_ms,
                    attempt: Attempt {
                        mode: attempt.mode,
                        number: (attempt.number + 1) as usize,
                        retries: attempt.retries,
                        delay_ms: attempt.delay_ms,
                    },
                },
            )
        } else {
            (
                server,
                StartAction::Finished(
                    Err(
                        SupervisorError::SpawnFailure {
                            attempts: attempt.retries,
                            last_error: Some(report),
                        },
                    ),
                ),
            )
        },
    }
}

/// The state and the action that follow a shutdown request.
pub open spec fn after_shutdown<G, S>(server: ServerView<G, S>) -> (ServerView<G, S>, KillAction<G, S>) {
    (
        ServerView { handle: None, mode: server.mode },
        match server.handle {
            None => KillAction::Nothing,
            Some(ProcessHandle::Group(group)) => KillAction::KillGroup(group),
            Some(ProcessHandle::Single(single)) => KillAction::KillSingle(single),
        },
    )
}

} // verus!
