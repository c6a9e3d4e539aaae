//! What holds of whole starts and shutdowns, whatever the launches do.
//!
//! A start is run here against a launcher: a function that says, for the
//! number of a launch call (from 0) and the mode asked for, what that call
//! gives. The run counts the calls it makes.

use vstd::prelude::*;
use crate::error::{shutdown_outcome, SupervisorError};
use crate::model::{after_shutdown, after_spawn, begin_start, ServerView};
use crate::server::{Attempt, KillAction, ProcessHandle, ServerMode, StartAction};

verus! {

/// What a launcher gives: the handle of the new worker, or a report.
pub type Launched<G, S> = Result<ProcessHandle<G, S>, String>;

/// How a start ended: the supervisor's state, the result that the caller
/// sees, the number of launch calls that were made, and the milliseconds
/// that were spent waiting between them.
pub ghost struct StartRun<G, S> {
    pub server: ServerView<G, S>,
    pub result: Result<(), SupervisorError>,
    pub spawns: nat,
    pub waited: nat,
}

/// The number of launch attempts that an action can still lead to.
pub open spec fn attempts_left(action: StartAction) -> nat {
    match action {
        StartAction::Finished(_) => 0,
        StartAction::Launch { wait_ms, attempt } => if attempt.number < attempt.retries {
            (attempt.retries - attempt.number + 1) as nat
        } else {
            1
        },
    }
}

/// Performs `action` and all that follows from it, after `spawns` launch
/// calls were made and `waited` milliseconds spent already.
pub open spec fn drive<G, S>(
    server: ServerView<G, S>,
    action: StartAction,
    launcher: spec_fn(nat, ServerMode) -> Launched<G, S>,
    spawns: nat,
    waited: nat,
) -> StartRun<G, S>
    decreases attempts_left(action),
{
    match action {
        StartAction::Finished(result) => StartRun {
            server: server,
            result: result,
            spawns: spawns,
            waited: waited,
        },
        StartAction::Launch { wait_ms, attempt } => {
            let step = after_spawn(server, attempt, launcher(spawns, attempt.mode));
            drive(step.0, step.1, launcher, spawns + 1, (waited + wait_ms) as nat)
        },
    }
}

/// A whole start under a policy of `retries` attempts.
pub open spec fn started<G, S>(
    server: ServerView<G, S>,
    retries: usize,
    delay_ms: u64,
    launcher: spec_fn(nat, ServerMode) -> Launched<G, S>,
) -> StartRun<G, S> {
    drive(server, begin_start(server, retries, delay_ms), launcher, 0, 0)
}

/// Whether a launcher never answers with a handle of the other kind: a
/// group for `OneFile`, a single process for `MultiFile`.
pub open spec fn faithful<G, S>(launcher: spec_fn(nat, ServerMode) -> Launched<G, S>) -> bool {
    forall|call: nat, mode: ServerMode|
        match #[trigger] launcher(call, mode) {
            Ok(ProcessHandle::Group(_)) => mode == ServerMode::OneFile,
            Ok(ProcessHandle::Single(_)) => mode == ServerMode::MultiFile,
            Err(_) => true,
        }
}

/// The number of kills that an action asks for.
pub open spec fn kills<G, S>(action: KillAction<G, S>) -> nat {
    match action {
        KillAction::Nothing => 0,
        KillAction::KillGroup(_) => 1,
        KillAction::KillSingle(_) => 1,
    }
}

/// A run from a due attempt makes launch calls until one gives a handle or
/// the last allowed attempt has failed, and ends accordingly.
proof fn lemma_drive<G, S>(
    server: ServerView<G, S>,
    wait_ms: u64,
    attempt: Attempt,
    launcher: spec_fn(nat, ServerMode) -> Launched<G, S>,
    spawns: nat,
    waited: nat,
)
    requires
        1 <= attempt.number <= attempt.retries,
        spawns + 1 == attempt.number,
    ensures
        ({
            let run = drive(
                server,
                StartAction::Launch { wait_ms: wait_ms, attempt: attempt },
                launcher,
                spawns,
                waited,
            );
            &&& attempt.number <= run.spawns <= attempt.retries
            &&& run.waited == waited + wait_ms + (run.spawns - attempt.number) * attempt.delay_ms
            &&& forall|call: nat|
                spawns <= call < run.spawns - 1 ==> (#[trigger] launcher(call, attempt.mode)).is_err()
            &&& match launcher((run.spawns - 1) as nat, attempt.mode) {
                Ok(handle) => {
                    &&& run.server == (ServerView { handle: Some(handle), mode: server.mode })
                    &&& run.result == Ok::<(), SupervisorError>(())
                },
                Err(report) => {
                    &&& run.spawns == attempt.retries
                    &&& run.server == server
                    &&& run.result == Err::<(), SupervisorError>(
                        SupervisorError::SpawnFailure { attempts: attempt.retries, last_error: Some(report) },
                    )
                },
            }
        }),
    decreases attempt.retries - attempt.number,
{
    let step = after_spawn(server, attempt, launcher(spawns, attempt.mode));
    match step.1 {
        StartAction::Finished(_) => {},
        StartAction::Launch { wait_ms: pause, attempt: following } => {
            lemma_drive(step.0, pause, following, launcher, spawns + 1, (waited + wait_ms) as nat);
            let run = drive(step.0, step.1, launcher, spawns + 1, (waited + wait_ms) as nat);
            let more = run.spawns - following.number;
            let delay = attempt.delay_ms as int;
            assert(delay + more * delay == (more + 1) * delay) by (nonlinear_arith);
        },
    }
}

/// A start while a worker is tracked makes no launch call, succeeds, and
/// leaves the supervisor as it was.
pub proof fn start_while_running_does_nothing<G, S>(
    server: ServerView<G, S>,
    retries: usize,
    delay_ms: u64,
    launcher: spec_fn(nat, ServerMode) -> Launched<G, S>,
)
    requires
        server.handle.is_some(),
    ensures
        started(server, retries, delay_ms, launcher) == (StartRun {
            server: server,
            result: Ok(()),
            spawns: 0,
            waited: 0,
        }),
{
}

/// With no worker tracked, a start whose first `failures` launch calls fail
/// and whose next one gives a handle, within the policy's bound, succeeds
/// after exactly `failures + 1` calls, with one pause of `delay_ms` after
/// each failure, and tracks that handle.
pub proof fn start_stops_at_first_success<G, S>(
    server: ServerView<G, S>,
    retries: usize,
    delay_ms: u64,
    launcher: spec_fn(nat, ServerMode) -> Launched<G, S>,
    failures: nat,
)
    requires
        server.handle.is_none(),
        failures < retries,
        forall|call: nat| call < failures ==> (#[trigger] launcher(call, server.mode)).is_err(),
        launcher(failures, server.mode).is_ok(),
    ensures
        started(server, retries, delay_ms, launcher) == (StartRun {
            server: ServerView { handle: Some(launcher(failures, server.mode).unwrap()), mode: server.mode },
            result: Ok(()),
            spawns: failures + 1,
            waited: (failures * delay_ms) as nat,
        }),
{
    let first = Attempt { mode: server.mode, number: 1, retries: retries, delay_ms: delay_ms };
    lemma_drive(server, 0, first, launcher, 0, 0);
    let run = started(server, retries, delay_ms, launcher);
    if run.spawns - 1 < failures {
        assert(launcher((run.spawns - 1) as nat, server.mode).is_err());
    } else if run.spawns - 1 > failures {
        assert(launcher(failures, server.mode).is_err());
    }
}

/// With no worker tracked, a start whose launch calls all fail makes exactly
/// as many calls as the policy allows, with one pause of `delay_ms` between
/// two calls, fails with a `SpawnFailure` that carries that number and the
/// last report, and still tracks nothing.
pub proof fn start_gives_up_at_the_bound<G, S>(
    server: ServerView<G, S>,
    retries: usize,
    delay_ms: u64,
    launcher: spec_fn(nat, ServerMode) -> Launched<G, S>,
)
    requires
        server.handle.is_none(),
        forall|call: nat| call < retries ==> (#[trigger] launcher(call, server.mode)).is_err(),
    ensures
        started(server, retries, delay_ms, launcher) == (StartRun {
            server: server,
            result: Err(
                SupervisorError::SpawnFailure {
                    attempts: retries,
                    last_error: if retries == 0 {
                        None
                    } else {
                        Some(launcher((retries - 1) as nat, server.mode)->Err_0)
                    },
                },
            ),
            spawns: retries as nat,
            waited: if retries == 0 {
                0
            } else {
                ((retries - 1) * delay_ms) as nat
            },
        }),
{
    if retries > 0 {
        let first = Attempt { mode: server.mode, number: 1, retries: retries, delay_ms: delay_ms };
        lemma_drive(server, 0, first, launcher, 0, 0);
        let run = started(server, retries, delay_ms, launcher);
        assert(launcher((run.spawns - 1) as nat, server.mode).is_err());
    }
}

/// Whatever the launches do, a start makes at most as many launch calls as
/// the policy allows, waits no longer than that many pauses, keeps the
/// supervisor's mode, and succeeds exactly
/// where a worker is tracked afterwards; where it fails, the state is as it
/// was.
pub proof fn start_is_bounded_and_consistent<G, S>(
    server: ServerView<G, S>,
    retries: usize,
    delay_ms: u64,
    launcher: spec_fn(nat, ServerMode) -> Launched<G, S>,
)
    ensures
        ({
            let run = started(server, retries, delay_ms, launcher);
            &&& run.spawns <= retries
            &&& run.waited <= retries * delay_ms
            &&& run.server.mode == server.mode
            &&& run.result.is_ok() <==> run.server.handle.is_some()
            &&& run.result.is_err() ==> run.server == server
        }),
{
    if server.handle.is_none() && retries > 0 {
        let first = Attempt { mode: server.mode, number: 1, retries: retries, delay_ms: delay_ms };
        lemma_drive(server, 0, first, launcher, 0, 0);
        let pauses = started(server, retries, delay_ms, launcher).spawns - 1;
        assert(pauses * delay_ms <= retries * delay_ms) by (nonlinear_arith)
            requires
                0 <= pauses <= retries,
                0 <= delay_ms,
        ;
    }
}

/// Two starts in a row, the first of which succeeds on an empty
/// supervisor, create one process together: every launch call of the first
/// but its last fails, the last gives the handle that is tracked from then
/// on, and the second start makes no launch call, succeeds, and changes
/// nothing, whatever its policy.
pub proof fn second_start_spawns_nothing<G, S>(
    server: ServerView<G, S>,
    retries: usize,
    delay_ms: u64,
    launcher: spec_fn(nat, ServerMode) -> Launched<G, S>,
    retries_again: usize,
    delay_ms_again: u64,
    again: spec_fn(nat, ServerMode) -> Launched<G, S>,
)
    requires
        server.handle.is_none(),
        started(server, retries, delay_ms, launcher).result.is_ok(),
    ensures
        ({
            let first = started(server, retries, delay_ms, launcher);
            let second = started(first.server, retries_again, delay_ms_again, again);
            &&& first.spawns >= 1
            &&& forall|call: nat|
                call < first.spawns - 1 ==> (#[trigger] launcher(call, server.mode)).is_err()
            &&& launcher((first.spawns - 1) as nat, server.mode).is_ok()
            &&& first.server.handle == Some(launcher((first.spawns - 1) as nat, server.mode).unwrap())
            &&& second == (StartRun { server: first.server, result: Ok(()), spawns: 0, waited: 0 })
        }),
{
    if retries > 0 {
        let attempt = Attempt { mode: server.mode, number: 1, retries: retries, delay_ms: delay_ms };
        lemma_drive(server, 0, attempt, launcher, 0, 0);
    }
    let first = started(server, retries, delay_ms, launcher);
    start_while_running_does_nothing(first.server, retries_again, delay_ms_again, again);
}

/// Two shutdowns in a row ask for one kill at most, and for exactly one
/// where a worker was tracked; the second asks for none and succeeds, and
/// the supervisor tracks nothing after either.
pub proof fn second_shutdown_kills_nothing<G, S>(server: ServerView<G, S>)
    ensures
        ({
            let first = after_shutdown(server);
            let second = after_shutdown(first.0);
            &&& first.0.handle.is_none()
            &&& second.0 == first.0
            &&& second.1 == KillAction::<G, S>::Nothing
            &&& shutdown_outcome(None) == Ok::<(), SupervisorError>(())
            &&& kills(first.1) + kills(second.1) == if server.handle.is_some() { 1nat } else { 0nat }
        }),
{
}

/// A worker that a faithful launcher started is killed in the way of the
/// supervisor's mode: as a group for `OneFile`, alone for `MultiFile`.
pub proof fn shutdown_kills_in_the_mode_of_the_start<G, S>(
    server: ServerView<G, S>,
    retries: usize,
    delay_ms: u64,
    launcher: spec_fn(nat, ServerMode) -> Launched<G, S>,
)
    requires
        server.handle.is_none(),
        faithful(launcher),
        started(server, retries, delay_ms, launcher).result.is_ok(),
    ensures
        ({
            let run = started(server, retries, delay_ms, launcher);
            let action = after_shutdown(run.server).1;
            match server.mode {
                ServerMode::OneFile => action matches KillAction::KillGroup(_),
                ServerMode::MultiFile => action matches KillAction::KillSingle(_),
            }
        }),
{
    if retries > 0 {
        let first = Attempt { mode: server.mode, number: 1, retries: retries, delay_ms: delay_ms };
        lemma_drive(server, 0, first, launcher, 0, 0);
        let run = started(server, retries, delay_ms, launcher);
        assert(launcher((run.spawns - 1) as nat, server.mode).is_ok());
    }
}

/// A shutdown never stands in the way of the next start. The supervisor
/// lets go of its worker before the kill is tried, so nothing that becomes
/// of the kill can change its state: whatever it held, a start that follows
/// makes a launch call, and succeeds at once where that call gives a handle.
pub proof fn start_after_shutdown_spawns_anew<G, S>(
    server: ServerView<G, S>,
    retries: usize,
    delay_ms: u64,
    launcher: spec_fn(nat, ServerMode) -> Launched<G, S>,
)
    requires
        retries > 0,
    ensures
        ({
            let stopped = after_shutdown(server).0;
            let run = started(stopped, retries, delay_ms, launcher);
            &&& stopped == (ServerView::<G, S> { handle: None, mode: server.mode })
            &&& run.spawns >= 1
            &&& launcher(0, server.mode).is_ok() ==> run == (StartRun {
                server: ServerView { handle: Some(launcher(0, server.mode).unwrap()), mode: server.mode },
                result: Ok(()),
                spawns: 1,
                waited: 0,
            })
        }),
{
    let stopped = after_shutdown(server).0;
    let attempt = Attempt { mode: server.mode, number: 1, retries: retries, delay_ms: delay_ms };
    lemma_drive(stopped, 0, attempt, launcher, 0, 0);
    if launcher(0, server.mode).is_ok() {
        start_stops_at_first_success(stopped, retries, delay_ms, launcher, 0);
    }
}

} // verus!
