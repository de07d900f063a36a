//! The command runner's outcome model and the deployment trigger's
//! primary/fallback policy.
//!
//! Spawning the external processes is I/O and happens outside the library;
//! the caller runs the primary command, asks [`fallback_needed`] whether the
//! fallback command must be attempted, runs it if so, and hands both results
//! to [`combine_outcomes`], which reduces them to the single outcome the
//! request handler reports.

use vstd::prelude::*;
use vstd::string::StringExecFns;

verus! {

/// What one completed external command produced: whether its exit status
/// indicated success, and its captured output streams.
pub struct CommandOutcome {
    pub success: bool,
    pub stdout: String,
    pub stderr: String,
}

/// Mathematical model of a [`CommandOutcome`].
pub ghost struct OutcomeModel {
    pub success: bool,
    pub stdout: Seq<char>,
    pub stderr: Seq<char>,
}

impl View for CommandOutcome {
    type V = OutcomeModel;

    open spec fn view(&self) -> OutcomeModel {
        OutcomeModel { success: self.success, stdout: self.stdout@, stderr: self.stderr@ }
    }
}

/// One attempt to run a command: `Ok` when the process ran to completion
/// (successfully or not), `Err` with the error message when it could not
/// be spawned at all.
pub type RunResult = Result<CommandOutcome, String>;

/// Separator placed between the fallback's stderr and the primary's stderr
/// when both commands ran and failed.
pub open spec fn prev_err_sep() -> Seq<char> {
    "\n(prev err) "@
}

/// Prefix of the error reported when neither command could be spawned.
pub open spec fn spawn_error_prefix() -> Seq<char> {
    "spawn error: "@
}

/// The fallback command is attempted exactly when the primary did not spawn
/// and exit successfully.
pub open spec fn fallback_needed_spec(primary: RunResult) -> bool {
    !(primary is Ok && primary->Ok_0.success)
}

/// The outcome the trigger reports, given the primary attempt and the
/// fallback attempt (`None` when the fallback was not attempted):
/// - primary ran and succeeded: the primary's outcome;
/// - primary ran and failed, fallback ran: the fallback's outcome, with the
///   primary's stderr appended to the fallback's stderr for diagnostics;
/// - primary ran and failed, fallback did not spawn: the primary's outcome
///   unchanged (the fallback's spawn error is dropped);
/// - primary did not spawn, fallback ran: the fallback's outcome;
/// - neither spawned: failure with empty stdout and a spawn-error message
///   naming the primary's spawn error.
pub open spec fn combined_outcome(primary: RunResult, fallback: Option<RunResult>) -> OutcomeModel {
    match primary {
        Ok(p) => {
            if p@.success {
                p@
            } else {
                match fallback {
                    Some(Ok(f)) => OutcomeModel {
                        success: f@.success,
                        stdout: f@.stdout,
                        stderr: f@.stderr + prev_err_sep() + p@.stderr,
                    },
                    _ => p@,
                }
            }
        },
        Err(e) => match fallback {
            Some(Ok(f)) => f@,
            _ => OutcomeModel {
                success: false,
                stdout: Seq::<char>::empty(),
                stderr: spawn_error_prefix() + e@,
            },
        },
    }
}

/// Decide whether the fallback command must be attempted after the primary
/// attempt `primary`.
pub fn fallback_needed(primary: &RunResult) -> (r: bool)
    ensures
        r == fallback_needed_spec(*primary),
{
    match primary {
        Ok(o) => !o.success,
        Err(_) => true,
    }
}

/// Reduce the primary attempt and the (optional) fallback attempt to the
/// single outcome the trigger reports. The fallback must have been attempted
/// exactly when [`fallback_needed`] said so.
pub fn combine_outcomes(primary: RunResult, fallback: Option<RunResult>) -> (r: CommandOutcome)
    requires
        fallback is Some <==> fallback_needed_spec(primary),
    ensures
        r@ == combined_outcome(primary, fallback),
{
    match primary {
        Ok(p) => {
            if p.success {
                p
            } else {
                match fallback {
                    Some(Ok(f)) => {
                        let mut err = f.stderr;
                        err.append("\n(prev err) ");
                        err.append(p.stderr.as_str());
                        CommandOutcome { success: f.success, stdout: f.stdout, stderr: err }
                    },
                    _ => p,
                }
            }
        },
        Err(e) => {
            match fallback {
                Some(Ok(f)) => f,
                _ => {
                    let mut err = String::from_str("spawn error: ");
                    err.append(e.as_str());
                    CommandOutcome { success: false, stdout: String::new(), stderr: err }
                },
            }
        },
    }
}

/// If the primary command spawns and exits successfully, the fallback is
/// never needed, and the trigger's outcome is the primary's own.
pub proof fn lemma_primary_success_no_fallback(primary: RunResult)
    requires
        primary is Ok,
        primary->Ok_0.success,
    ensures
        !fallback_needed_spec(primary),
        combined_outcome(primary, None) == primary->Ok_0@,
{
}

} // verus!
