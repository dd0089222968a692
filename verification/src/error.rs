//! The ways in which a run of the front-end can fail.

use vstd::prelude::*;

verus! {

/// Why a run ended without success. Every failure is final: nothing is retried.
#[derive(Debug, Clone, Copy, PartialEq, Eq)]
pub enum Error {
    /// No directory from the starting one up to the file system's root holds a
    /// manifest with the workspace marker.
    WorkspaceNotFound,
    /// A manifest on the way up exists but could not be read.
    ManifestReadError,
    /// The build tool could not be launched.
    SubprocessSpawnError,
    /// The build tool ran and did not exit with status zero. `code` is its exit
    /// status, where it has one.
    SubprocessFailed { code: Option<i32> },
}

/// What the user is told when no workspace root is found.
pub open spec fn workspace_not_found_text() -> Seq<char> {
    "Could not find Lunaris workspace root.\nlunac must be run from within the Lunaris project directory."@
}

/// What the user is told about `error`.
pub open spec fn message_spec(error: Error) -> Seq<char> {
    match error {
        Error::WorkspaceNotFound => workspace_not_found_text(),
        Error::ManifestReadError => "could not read a project manifest"@,
        Error::SubprocessSpawnError => "could not launch cargo"@,
        Error::SubprocessFailed { .. } => "cargo command failed"@,
    }
}

/// The exit status with which the front-end itself ends: zero on success, the
/// child's own status where a child failed with one, and 1 for every other
/// failure.
pub open spec fn exit_code_spec(result: Result<(), Error>) -> i32 {
    match result {
        Ok(()) => 0,
        Err(Error::SubprocessFailed { code: Some(c) }) => if c != 0 { c } else { 1 },
        Err(_) => 1,
    }
}

impl Error {
    /// The text shown to the user for this error.
    pub fn message(&self) -> (text: String)
        ensures
            text@ == message_spec(*self),
    {
        match self {
            Error::WorkspaceNotFound => "Could not find Lunaris workspace root.\nlunac must be run from within the Lunaris project directory.".to_string(),
            Error::ManifestReadError => "could not read a project manifest".to_string(),
            Error::SubprocessSpawnError => "could not launch cargo".to_string(),
            Error::SubprocessFailed { .. } => "cargo command failed".to_string(),
        }
    }
}

/// The exit status of the front-end for the result of a run.
pub fn exit_code(result: &Result<(), Error>) -> (code: i32)
    ensures
        code == exit_code_spec(*result),
        code == 0 <==> *result is Ok,
{
    match result {
        Ok(()) => 0,
        Err(Error::SubprocessFailed { code: Some(c) }) => {
            if *c != 0 {
                *c
            } else {
                1
            }
        },
        Err(_) => 1,
    }
}

} // verus!
