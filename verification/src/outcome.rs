//! Normalizing what the process launcher reports into the uniform result.
//!
//! The launcher hands back one of two shapes: it could not start the tool
//! at all, or the tool ran and exited. Exit code zero becomes a success
//! confirmation; a non-zero exit becomes `NonZeroExit` carrying the
//! captured standard-error text; a failed spawn becomes
//! `LauncherSpawnFailed` carrying the launcher's message. The first failure
//! reason is surfaced verbatim; nothing is retried.

use vstd::prelude::*;
use crate::actions::Action;
use crate::errors::DispatchError;

verus! {

/// What the process launcher reported for one invocation.
#[derive(Debug)]
pub enum LaunchOutcome {
    /// The executable could not be started; carries the launcher's message.
    SpawnFailed(String),
    /// The tool ran to completion with the given exit status and captured
    /// output text.
    Exited { success: bool, stdout: String, stderr: String },
}

/// The confirmation a successful action reports: a fixed verb for the
/// action's shape, followed by its target.
pub open spec fn spec_confirmation(a: Action) -> Seq<char> {
    match a {
        Action::Launch(t) => "Opened: "@ + t@,
        Action::Activate(t) => "Switched to: "@ + t@,
        Action::Minimize(t) => "Minimized: "@ + t@,
        Action::Maximize(t) => "Maximized: "@ + t@,
        Action::Close(t) => "Closed: "@ + t@,
        Action::Focus(t) => "Focused window: "@ + t@,
        Action::ListWindows => "Listed windows"@,
        Action::ListProcesses => "Listed processes"@,
    }
}

/// Builds the confirmation string `spec_confirmation` describes.
fn confirmation_of(action: &Action) -> (r: String)
    ensures
        r@ == spec_confirmation(*action),
{
    match action {
        Action::Launch(t) => String::from_str("Opened: ").concat(t.as_str()),
        Action::Activate(t) => String::from_str("Switched to: ").concat(t.as_str()),
        Action::Minimize(t) => String::from_str("Minimized: ").concat(t.as_str()),
        Action::Maximize(t) => String::from_str("Maximized: ").concat(t.as_str()),
        Action::Close(t) => String::from_str("Closed: ").concat(t.as_str()),
        Action::Focus(t) => String::from_str("Focused window: ").concat(t.as_str()),
        Action::ListWindows => String::from_str("Listed windows"),
        Action::ListProcesses => String::from_str("Listed processes"),
    }
}

/// Settles a window- or application-management action from what the
/// launcher reported: a clean exit confirms the action, any other outcome
/// is the corresponding error, verbatim.
pub fn settle_action(action: &Action, outcome: LaunchOutcome) -> (r: Result<String, DispatchError>)
    ensures
        r is Ok <==> (outcome matches LaunchOutcome::Exited { success, .. } && success),
        r matches Ok(m) ==> m@ == spec_confirmation(*action),
        outcome matches LaunchOutcome::SpawnFailed(m) ==> (r matches Err(
            DispatchError::LauncherSpawnFailed(m2),
        ) && m2@ == m@),
        outcome matches LaunchOutcome::Exited { success, stderr, .. } ==> (!success ==> (r matches
            Err(DispatchError::NonZeroExit(e)) && e@ == stderr@)),
{
    match outcome {
        LaunchOutcome::SpawnFailed(m) => Err(DispatchError::LauncherSpawnFailed(m)),
        LaunchOutcome::Exited { success, stdout: _, stderr } => {
            if success {
                Ok(confirmation_of(action))
            } else {
                Err(DispatchError::NonZeroExit(stderr))
            }
        },
    }
}

/// Settles a generic command from what the launcher reported: a clean exit
/// hands back the captured standard output, any other outcome is the
/// corresponding error, verbatim.
pub fn settle_command(outcome: LaunchOutcome) -> (r: Result<String, DispatchError>)
    ensures
        r is Ok <==> (outcome matches LaunchOutcome::Exited { success, .. } && success),
        outcome matches LaunchOutcome::Exited { success, stdout, .. } ==> (success ==> (r matches
            Ok(s) && s@ == stdout@)),
        outcome matches LaunchOutcome::SpawnFailed(m) ==> (r matches Err(
            DispatchError::LauncherSpawnFailed(m2),
        ) && m2@ == m@),
        outcome matches LaunchOutcome::Exited { success, stderr, .. } ==> (!success ==> (r matches
            Err(DispatchError::NonZeroExit(e)) && e@ == stderr@)),
{
    match outcome {
        LaunchOutcome::SpawnFailed(m) => Err(DispatchError::LauncherSpawnFailed(m)),
        LaunchOutcome::Exited { success, stdout, stderr } => {
            if success {
                Ok(stdout)
            } else {
                Err(DispatchError::NonZeroExit(stderr))
            }
        },
    }
}

} // verus!
