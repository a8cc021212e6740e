//! Delegation of process control to the extracted target. The launcher
//! forwards its received arguments, environment and standard streams to
//! the child untouched; the decisions here fix what the launcher's own
//! exit status must be.

use vstd::prelude::*;

use crate::errors::LauncherError;

verus! {

/// Turns what became of the child into the launcher's outcome: the child's
/// exit code is passed through exactly, and a child that could not be
/// started or produced no exit status is the fatal `LaunchError` — there
/// is no fallback and no retry.
pub fn delegate_outcome(child_exit: Option<i32>) -> (r: Result<i32, LauncherError>)
    ensures
        match child_exit {
            Some(code) => r == Ok::<i32, LauncherError>(code),
            None => r == Err::<i32, LauncherError>(LauncherError::LaunchError),
        },
{
    match child_exit {
        Option::Some(code) => Ok(code),
        Option::None => Err(LauncherError::LaunchError),
    }
}

/// The launcher's exit status when it fails before delegation: non-zero,
/// so a caller can tell an internal failure from a target that succeeded.
pub fn failure_exit_code() -> (r: i32)
    ensures
        r != 0,
        r == 1,
{
    1
}

} // verus!
