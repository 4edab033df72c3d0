//! Errors of the launcher. A child that exits with a nonzero code is no
//! error: its code is data and is handed on as the launcher's own.

use vstd::prelude::*;

verus! {

/// Why a configured path was refused.
#[derive(Clone, Copy, Debug, PartialEq, Eq, Structural)]
pub enum PathIssue {
    /// The path does not start at the root.
    NotAbsolute,
    /// Nothing exists at the path.
    NotFound,
    /// Something exists at the path, but it is not a regular file.
    NotAFile,
    /// Something exists at the path, but it is not a directory.
    NotADirectory,
    /// No directory of the search path holds the named program.
    NotFoundInPath,
}

/// A fatal error; each is raised before any privileged process starts,
/// except `SpawnFailed`.
#[derive(Debug)]
pub enum AppError {
    /// The escalation binary is not an absolute path to a regular file.
    InvalidSuPath { path: String, reason: PathIssue },
    /// The home directory is relative, or exists and is not a directory.
    InvalidHomeDir { path: String, reason: PathIssue },
    /// The shell cannot be resolved to a regular file.
    InvalidShell { shell: String, reason: PathIssue },
    /// The help invocation of the escalation binary exited unsuccessfully.
    ProbeFailed { exit_code: Option<i32> },
    /// The user command cannot be quoted for a shell (it holds a NUL).
    EscapeFailed,
    /// The operating system could not start a process.
    SpawnFailed { message: String },
}

/// Exit code of the launcher when a check fails before any process runs.
pub const CONFIG_ERROR_EXIT: i32 = 1;

/// Exit code of the launcher when a process could not be started.
pub const SPAWN_ERROR_EXIT: i32 = 126;

/// The exit code that belongs to an error.
pub open spec fn error_exit_code(e: AppError) -> i32 {
    match e {
        AppError::SpawnFailed { .. } => SPAWN_ERROR_EXIT,
        _ => CONFIG_ERROR_EXIT,
    }
}

impl AppError {
    /// The exit code of the launcher when it stops on this error.
    pub fn exit_code(&self) -> (r: i32)
        ensures
            r == error_exit_code(*self),
    {
        match self {
            AppError::SpawnFailed { .. } => SPAWN_ERROR_EXIT,
            _ => CONFIG_ERROR_EXIT,
        }
    }
}

} // verus!
