//! The failures that a request can end in, as the caller sees them.
use vstd::prelude::*;

verus! {

/// Class of a failure on the wire.
#[derive(Clone, Copy, Debug, PartialEq, Eq, Structural)]
pub enum StatusCode {
    Internal,
    ResourceExhausted,
}

/// A failure of the runner.
#[derive(Clone, Copy, Debug, PartialEq, Eq, Structural)]
pub enum RunnerError {
    /// Every processor is taken by a running request.
    NoSlots,
    /// The path asked about does not exist under the build directory.
    NotReady,
    /// The request names no program.
    NoProgram,
    /// The request's temporary directory could not be created.
    TmpDir,
    /// The request's home directory could not be created.
    HomeDir,
    /// A file that receives the command's output could not be created.
    CreateFile,
    /// The sandbox could not be started.
    Spawn,
    /// Waiting for the sandbox failed.
    Wait,
    /// The sandbox ended without an exit code.
    NoExitCode,
}

impl RunnerError {
    pub open spec fn spec_code(&self) -> StatusCode {
        match *self {
            RunnerError::NoSlots => StatusCode::ResourceExhausted,
            _ => StatusCode::Internal,
        }
    }

    pub open spec fn spec_message(&self) -> Seq<char> {
        match *self {
            RunnerError::NoSlots => "No available concurrency slots"@,
            RunnerError::NotReady => "not ready"@,
            RunnerError::NoProgram => "No program to run"@,
            RunnerError::TmpDir => "Failed to create tmpdir"@,
            RunnerError::HomeDir => "Failed to create homedir"@,
            RunnerError::CreateFile => "Failed to create file"@,
            RunnerError::Spawn => "Failed to spawn child"@,
            RunnerError::Wait => "Wait failed"@,
            RunnerError::NoExitCode => "No Exit Code"@,
        }
    }

    /// The class under which the failure is reported: an exhausted pool of
    /// processors as such, everything else as internal.
    pub fn code(&self) -> (code: StatusCode)
        ensures
            code == self.spec_code(),
    {
        match *self {
            RunnerError::NoSlots => StatusCode::ResourceExhausted,
            _ => StatusCode::Internal,
        }
    }

    /// The text reported with the failure.
    pub fn message(&self) -> (message: &'static str)
        ensures
            message@ == self.spec_message(),
    {
        match *self {
            RunnerError::NoSlots => "No available concurrency slots",
            RunnerError::NotReady => "not ready",
            RunnerError::NoProgram => "No program to run",
            RunnerError::TmpDir => "Failed to create tmpdir",
            RunnerError::HomeDir => "Failed to create homedir",
            RunnerError::CreateFile => "Failed to create file",
            RunnerError::Spawn => "Failed to spawn child",
            RunnerError::Wait => "Wait failed",
            RunnerError::NoExitCode => "No Exit Code",
        }
    }
}

} // verus!
