//! What can go wrong while the worker is started or stopped.

use vstd::prelude::*;
use vstd::string::StringExecFns;

verus! {

/// The failures that the supervisor reports to its callers.
#[derive(Debug, PartialEq, Eq)]
pub enum SupervisorError {
    /// No launch attempt produced a process. `attempts` is the number of
    /// attempts that the retry policy allowed, `last_error` what the last
    /// attempt reported (`None` where the policy allowed no attempt at all).
    SpawnFailure { attempts: usize, last_error: Option<String> },
    /// The kill of the tracked worker failed with the given report.
    TerminationFailure { error: String },
    /// The lock that guards the supervisor could not be taken.
    LockPoisoned { error: String },
}

/// The character of a decimal digit.
pub open spec fn digit(d: nat) -> char {
    if d == 0 {
        '0'
    } else if d == 1 {
        '1'
    } else if d == 2 {
        '2'
    } else if d == 3 {
        '3'
    } else if d == 4 {
        '4'
    } else if d == 5 {
        '5'
    } else if d == 6 {
        '6'
    } else if d == 7 {
        '7'
    } else if d == 8 {
        '8'
    } else {
        '9'
    }
}

/// A number in decimal notation, without sign or leading zeros.
pub open spec fn decimal(n: nat) -> Seq<char>
    decreases n,
{
    if n < 10 {
        seq![digit(n)]
    } else {
        decimal(n / 10).push(digit(n % 10))
    }
}

/// The text of a failure: for a `SpawnFailure` the number of attempts and
/// the last report (`unknown error` where there is none), for a
/// `TerminationFailure` the report alone, for a `LockPoisoned` the report
/// behind a fixed opening.
pub open spec fn message_of(error: SupervisorError) -> Seq<char> {
    match error {
        SupervisorError::SpawnFailure { attempts, last_error } => {
            "Server failed to start after "@ + decimal(attempts as nat) + " attempts: "@ + match last_error {
                Some(report) => report@,
                None => "unknown error"@,
            }
        },
        SupervisorError::TerminationFailure { error } => error@,
        SupervisorError::LockPoisoned { error } => "Failed to lock server: "@ + error@,
    }
}

fn digit_text(d: usize) -> (text: &'static str)
    requires
        d < 10,
    ensures
        text@ =~= seq![digit(d as nat)],
{
    match d {
        0 => {
            proof {
                reveal_strlit("0");
            }
            "0"
        },
        1 => {
            proof {
                reveal_strlit("1");
            }
            "1"
        },
        2 => {
            proof {
                reveal_strlit("2");
            }
            "2"
        },
        3 => {
            proof {
                reveal_strlit("3");
            }
            "3"
        },
        4 => {
            proof {
                reveal_strlit("4");
            }
            "4"
        },
        5 => {
            proof {
                reveal_strlit("5");
            }
            "5"
        },
        6 => {
            proof {
                reveal_strlit("6");
            }
            "6"
        },
        7 => {
            proof {
                reveal_strlit("7");
            }
            "7"
        },
        8 => {
            proof {
                reveal_strlit("8");
            }
            "8"
        },
        _ => {
            proof {
                reveal_strlit("9");
            }
            "9"
        },
    }
}

fn decimal_text(n: usize) -> (text: String)
    ensures
        text@ == decimal(n as nat),
    decreases n,
{
    if n < 10 {
        String::from_str(digit_text(n))
    } else {
        let text = decimal_text(n / 10).concat(digit_text(n % 10));
        assert(text@ =~= decimal(n as nat));
        text
    }
}

impl SupervisorError {
    /// The text of this failure.
    pub fn message(&self) -> (text: String)
        ensures
            text@ == message_of(*self),
    {
        match self {
            SupervisorError::SpawnFailure { attempts, last_error } => {
                let head = String::from_str("Server failed to start after ");
                let counted = head.concat(decimal_text(*attempts).as_str()).concat(" attempts: ");
                match last_error {
                    Some(report) => counted.concat(report.as_str()),
                    None => counted.concat("unknown error"),
                }
            },
            SupervisorError::TerminationFailure { error } => error.clone(),
            SupervisorError::LockPoisoned { error } => {
                String::from_str("Failed to lock server: ").concat(error.as_str())
            },
        }
    }
}

/// The step of a launch that can fail.
#[derive(Debug, Clone, Copy, PartialEq, Eq, Structural)]
pub enum LaunchStage {
    /// The worker could not be spawned as the leader of its group.
    GroupSpawn,
    /// The host could not resolve the bundled worker.
    SidecarLookup,
    /// The bundled worker was resolved and could not be spawned.
    SidecarSpawn,
}

/// The report of a failed launch: what went wrong, behind an opening that
/// names the step.
pub open spec fn launch_report_of(stage: LaunchStage, detail: Seq<char>) -> Seq<char> {
    match stage {
        LaunchStage::GroupSpawn => "Failed to spawn 'main' group: "@ + detail,
        LaunchStage::SidecarLookup => "Failed to get sidecar 'main': "@ + detail,
        LaunchStage::SidecarSpawn => "Failed to spawn sidecar process: "@ + detail,
    }
}

/// Writes the report of a launch that failed at `stage` with `detail`.
pub fn launch_report(stage: LaunchStage, detail: &str) -> (report: String)
    ensures
        report@ == launch_report_of(stage, detail@),
{
    match stage {
        LaunchStage::GroupSpawn => String::from_str("Failed to spawn 'main' group: ").concat(detail),
        LaunchStage::SidecarLookup => String::from_str("Failed to get sidecar 'main': ").concat(detail),
        LaunchStage::SidecarSpawn => String::from_str("Failed to spawn sidecar process: ").concat(detail),
    }
}

/// What a shutdown reports once the caller has done what the supervisor
/// asked for. `killed` is `None` where no kill was due, else the outcome of
/// the kill: a shutdown with nothing to kill and one whose kill went through
/// succeed, a failed kill is a `TerminationFailure` that carries the report
/// unchanged.
pub open spec fn shutdown_outcome(killed: Option<Result<(), String>>) -> Result<(), SupervisorError> {
    match killed {
        None => Ok(()),
        Some(Ok(_)) => Ok(()),
        Some(Err(report)) => Err(SupervisorError::TerminationFailure { error: report }),
    }
}

/// Maps what became of the kill, if one was due, to the result of the
/// shutdown.
pub fn shutdown_result(killed: Option<Result<(), String>>) -> (res: Result<(), SupervisorError>)
    ensures
        res == shutdown_outcome(killed),
{
    match killed {
        None => Ok(()),
        Some(Ok(_)) => Ok(()),
        Some(Err(report)) => Err(SupervisorError::TerminationFailure { error: report }),
    }
}

/// The failure of a lock that was found poisoned, with the report unchanged.
pub fn lock_failure(report: String) -> (res: SupervisorError)
    ensures
        res == (SupervisorError::LockPoisoned { error: report }),
{
    SupervisorError::LockPoisoned { error: report }
}

} // verus!
