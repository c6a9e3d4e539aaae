//! The supervisor's state and its transitions.

use vstd::prelude::*;
use crate::error::SupervisorError;
use crate::model::{after_shutdown, after_spawn, adopt, begin_start, ServerView};

verus! {

/// The number of launch attempts that `run` allows.
pub const START_ATTEMPTS: usize = 3;

/// The pause between two launch attempts of `run`, in milliseconds.
pub const START_BACKOFF_MS: u64 = 800;

/// How the worker is launched.
#[derive(Debug, Clone, Copy, PartialEq, Eq, Structural)]
pub enum ServerMode {
    /// Directly, as the leader of a process group of its own: a kill reaches
    /// the worker and its descendants.
    OneFile,
    /// As a bundled executable that the host resolves by name: a kill reaches
    /// the worker alone.
    MultiFile,
}

/// The one live worker, tagged by the way it was launched. `G` is the
/// caller's handle of a process group, `S` its handle of a single process;
/// the supervisor carries either through and never looks inside.
#[derive(Debug, PartialEq, Eq)]
pub enum ProcessHandle<G, S> {
    Group(G),
    Single(S),
}

/// What a launch consists of: the program, its arguments, and whether the
/// new process leads a process group of its own.
#[derive(Debug, PartialEq, Eq)]
pub struct LaunchPlan {
    pub program: &'static str,
    pub arguments: Vec<&'static str>,
    pub grouped: bool,
}

/// The arguments that the worker is launched with in `mode`: none where it
/// is launched directly, else the flag that selects its serve mode and the
/// flag and value of the deployment identifier.
pub open spec fn worker_arguments(mode: ServerMode) -> Seq<Seq<char>> {
    match mode {
        ServerMode::OneFile => seq![],
        ServerMode::MultiFile => seq!["-m"@, "serve"@, "-d"@, "com.option.swiflow"@],
    }
}

/// The launch that `mode` stands for: the worker, known by the name `main`
/// in either mode, with the arguments of that mode, grouped for `OneFile`
/// alone.
pub fn launch_plan(mode: ServerMode) -> (plan: LaunchPlan)
    ensures
        plan.program@ == "main"@,
        plan.grouped == (mode == ServerMode::OneFile),
        plan.arguments@.len() == worker_arguments(mode).len(),
        forall|i: int| 0 <= i < plan.arguments@.len() ==> (#[trigger] plan.arguments@[i])@ == worker_arguments(mode)[i],
{
    match mode {
        ServerMode::OneFile => LaunchPlan { program: "main", arguments: Vec::new(), grouped: true },
        ServerMode::MultiFile => LaunchPlan {
            program: "main",
            arguments: vec!["-m", "serve", "-d", "com.option.swiflow"],
            grouped: false,
        },
    }
}

/// One launch attempt that the caller is asked to perform.
#[derive(Debug, Clone, Copy, PartialEq, Eq, Structural)]
pub struct Attempt {
    /// The mode to launch in.
    pub mode: ServerMode,
    /// The number of this attempt, from 1.
    pub number: usize,
    /// The number of attempts that the policy allows.
    pub retries: usize,
    /// The pause between two attempts, in milliseconds.
    pub delay_ms: u64,
}

/// What the caller does next while the worker is being started.
#[derive(Debug, PartialEq, Eq)]
pub enum StartAction {
    /// Wait `wait_ms` milliseconds, launch the worker as `attempt` says, and
    /// report the outcome to `WebServer::start`.
    Launch { wait_ms: u64, attempt: Attempt },
    /// Nothing: the start has ended with this result.
    Finished(Result<(), SupervisorError>),
}

/// What the caller does next when the worker is shut down.
#[derive(Debug, PartialEq, Eq)]
pub enum KillAction<G, S> {
    /// Nothing: no worker was tracked.
    Nothing,
    /// Kill the whole process group behind the handle.
    KillGroup(G),
    /// Kill the single process behind the handle.
    KillSingle(S),
}

/// The supervisor: at most one tracked worker, and the mode it is launched in.
#[derive(Debug)]
pub struct WebServer<G, S> {
    processes: Option<ProcessHandle<G, S>>,
    mode: ServerMode,
}

impl<G, S> View for WebServer<G, S> {
    type V = ServerView<G, S>;

    closed spec fn view(&self) -> ServerView<G, S> {
        ServerView { handle: self.processes, mode: self.mode }
    }
}

impl<G, S> WebServer<G, S> {
    /// A supervisor that tracks no worker and launches in `mode`.
    pub fn new(mode: ServerMode) -> (server: Self)
        ensures
            server@ == (ServerView::<G, S> { handle: None, mode: mode }),
    {
        Self { processes: None, mode }
    }

    /// Whether a worker is tracked.
    pub fn is_running(&self) -> (running: bool)
        ensures
            running == self@.handle.is_some(),
    {
        self.processes.is_some()
    }

    /// The mode of the current or the next launch.
    pub fn mode(&self) -> (mode: ServerMode)
        ensures
            mode == self@.mode,
    {
        self.mode
    }

    /// Records the outcome of the launch that `attempt` asked for and says
    /// what comes next: a handle is stored and ends the start with success;
    /// a failure leaves the state alone and leads to the next attempt after
    /// the policy's pause or, where `attempt` was the last one allowed, ends
    /// the start with a `SpawnFailure` that carries the report.
    ///
    /// An attempt is only ever asked for while nothing is tracked. A caller
    /// that reports a handle while one is tracked has the new one take the
    /// place of the old, which is let go unkilled.
    pub fn start(&mut self, attempt: Attempt, outcome: Result<ProcessHandle<G, S>, String>) -> (next: StartAction)
        ensures
            (final(self)@, next) == after_spawn(old(self)@, attempt, outcome),
    {
        match outcome {
            Ok(handle) => {
                self.processes = Some(handle);
                StartAction::Finished(Ok(()))
            },
            Err(report) => {
                if attempt.number < attempt.retries {
                    let following = Attempt {
                        mode: attempt.mode,
                        number: attempt.number + 1,
                        retries: attempt.retries,
                        delay_ms: attempt.delay_ms,
                    };
                    StartAction::Launch { wait_ms: attempt.delay_ms, attempt: following }
                } else {
                    StartAction::Finished(
                        Err(
                            SupervisorError::SpawnFailure {
                                attempts: attempt.retries,
                                last_error: Some(report),
                            },
                        ),
                    )
                }
            },
        }
    }

    /// Opens a start under a policy of at most `retries` attempts,
    /// `delay_ms` milliseconds apart. With a worker tracked there is nothing
    /// to do and the start ends with success at once; with no attempt allowed
    /// it ends with a `SpawnFailure`; else the first attempt is due now, in
    /// the supervisor's mode.
    pub fn start_with_retry(&self, retries: usize, delay_ms: u64) -> (next: StartAction)
        ensures
            next == begin_start(self@, retries, delay_ms),
    {
        if self.processes.is_some() {
            StartAction::Finished(Ok(()))
        } else if retries == 0 {
            StartAction::Finished(
                Err(SupervisorError::SpawnFailure { attempts: 0, last_error: None }),
            )
        } else {
            StartAction::Launch {
                wait_ms: 0,
                attempt: Attempt { mode: self.mode, number: 1, retries, delay_ms },
            }
        }
    }

    /// Gives up the tracked worker, if any, and asks the caller to kill it in
    /// the way its tag says. The supervisor tracks nothing afterwards,
    /// whatever becomes of the kill.
    pub fn shutdown(&mut self) -> (action: KillAction<G, S>)
        ensures
            (final(self)@, action) == after_shutdown(old(self)@),
    {
        match self.processes.take() {
            None => KillAction::Nothing,
            Some(ProcessHandle::Group(group)) => KillAction::KillGroup(group),
            Some(ProcessHandle::Single(single)) => KillAction::KillSingle(single),
        }
    }
}

/// The view of a slot that may not hold a supervisor yet.
pub open spec fn slot_view<G, S>(slot: Option<WebServer<G, S>>) -> Option<ServerView<G, S>> {
    match slot {
        None => None,
        Some(server) => Some(server@),
    }
}

/// Requests that the worker run: creates the supervisor in `mode` where the
/// slot is empty (an existing supervisor keeps its own mode), and opens a
/// start under the policy of `START_ATTEMPTS` attempts, `START_BACKOFF_MS`
/// milliseconds apart.
pub fn run<G, S>(slot: &mut Option<WebServer<G, S>>, mode: ServerMode) -> (next: StartAction)
    ensures
        slot_view(*final(slot)) == Some(adopt(slot_view(*old(slot)), mode)),
        next == begin_start(adopt(slot_view(*old(slot)), mode), START_ATTEMPTS, START_BACKOFF_MS),
{
    if slot.is_none() {
        *slot = Some(WebServer::new(mode));
    }
    match slot {
        Some(server) => server.start_with_retry(START_ATTEMPTS, START_BACKOFF_MS),
        None => StartAction::Finished(Ok(())),
    }
}

/// Requests that the worker stop: an empty slot stays empty and nothing is
/// to be done; an existing supervisor gives up its worker.
pub fn shutdown<G, S>(slot: &mut Option<WebServer<G, S>>) -> (action: KillAction<G, S>)
    ensures
        match slot_view(*old(slot)) {
            None => final(slot).is_none() && action == KillAction::<G, S>::Nothing,
            Some(before) => (slot_view(*final(slot)), action) == (
                Some(after_shutdown(before).0),
                after_shutdown(before).1,
            ),
        },
{
    match slot {
        Some(server) => server.shutdown(),
        None => KillAction::Nothing,
    }
}

} // verus!
