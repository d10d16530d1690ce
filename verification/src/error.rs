//! The error taxonomy shared by every pipeline step.

use vstd::prelude::*;

verus! {

/// A failure surfaced by the pipeline: either the external executable could
/// not be spawned, or it ran and failed, or an internal precondition broke.
#[derive(Debug)]
pub enum FolderifyError {
    CommandInvalid(CommandInvalidError),
    CommandFailed(CommandFailedError),
    General(GeneralError),
}

/// The external executable could not be found, spawned, or written to.
#[derive(Debug)]
pub struct CommandInvalidError {
    pub command_name: String,
}

/// The external executable ran and exited with a non-zero status; its error
/// stream is preserved for diagnostics.
#[derive(Debug)]
pub struct CommandFailedError {
    pub command_name: String,
    pub stderr: Vec<u8>,
}

/// An internal precondition was violated.
#[derive(Debug)]
pub struct GeneralError {
    pub message: String,
}

impl From<CommandInvalidError> for FolderifyError {
    fn from(value: CommandInvalidError) -> Self {
        FolderifyError::CommandInvalid(value)
    }
}

impl vstd::std_specs::convert::FromSpecImpl<CommandInvalidError> for FolderifyError {
    open spec fn obeys_from_spec() -> bool {
        true
    }

    open spec fn from_spec(v: CommandInvalidError) -> Self {
        FolderifyError::CommandInvalid(v)
    }
}

impl From<CommandFailedError> for FolderifyError {
    fn from(value: CommandFailedError) -> Self {
        FolderifyError::CommandFailed(value)
    }
}

impl vstd::std_specs::convert::FromSpecImpl<CommandFailedError> for FolderifyError {
    open spec fn obeys_from_spec() -> bool {
        true
    }

    open spec fn from_spec(v: CommandFailedError) -> Self {
        FolderifyError::CommandFailed(v)
    }
}

impl From<GeneralError> for FolderifyError {
    fn from(value: GeneralError) -> Self {
        FolderifyError::General(value)
    }
}

impl vstd::std_specs::convert::FromSpecImpl<GeneralError> for FolderifyError {
    open spec fn obeys_from_spec() -> bool {
        true
    }

    open spec fn from_spec(v: GeneralError) -> Self {
        FolderifyError::General(v)
    }
}

impl FolderifyError {
    /// A short description of the error kind, for user-facing reporting.
    pub fn kind_description(&self) -> (r: &'static str)
        ensures
            self matches FolderifyError::CommandInvalid(_) ==> r@ == "could not run command"@,
            self matches FolderifyError::CommandFailed(_) ==> r@ == "command failed"@,
            self matches FolderifyError::General(_) ==> r@ == "error"@,
    {
        match self {
            FolderifyError::CommandInvalid(_) => "could not run command",
            FolderifyError::CommandFailed(_) => "command failed",
            FolderifyError::General(_) => "error",
        }
    }
}

} // verus!
