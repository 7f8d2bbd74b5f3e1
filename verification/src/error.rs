//! Why a shutdown failed.
use std::io;
use vstd::prelude::*;

verus! {

/// Describes a failure that prevented a guarded child from being shut down.
#[derive(Debug)]
pub enum ShutdownError {
    /// Inspecting the child's initial status failed.
    Inspect {
        /// Underlying process error.
        source: io::Error,
    },
    /// Sending the forceful termination signal failed.
    Kill {
        /// Underlying signal error.
        source: io::Error,
    },
    /// Reaping the terminated child failed.
    Wait {
        /// Underlying process error.
        source: io::Error,
    },
}

impl ShutdownError {
    /// The underlying error of any failure.
    pub open spec fn cause(self) -> io::Error {
        match self {
            ShutdownError::Inspect { source } => source,
            ShutdownError::Kill { source } => source,
            ShutdownError::Wait { source } => source,
        }
    }

    /// Returns the text that describes the failure.
    pub fn message(&self) -> (result: &'static str)
        ensures
            self is Inspect ==> result@ == "failed to inspect the child before shutdown"@,
            self is Kill ==> result@ == "failed to forcefully terminate the child"@,
            self is Wait ==> result@ == "failed to reap the terminated child"@,
    {
        match self {
            ShutdownError::Inspect { .. } => "failed to inspect the child before shutdown",
            ShutdownError::Kill { .. } => "failed to forcefully terminate the child",
            ShutdownError::Wait { .. } => "failed to reap the terminated child",
        }
    }

    /// Returns the underlying error.
    pub fn source(&self) -> (result: &io::Error)
        ensures
            *result == self.cause(),
    {
        match self {
            ShutdownError::Inspect { source } => source,
            ShutdownError::Kill { source } => source,
            ShutdownError::Wait { source } => source,
        }
    }
}

} // verus!
