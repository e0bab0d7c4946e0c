//! The failures of this layer.

use vstd::prelude::*;

verus! {

/// The ways an operation of this layer can fail.
#[derive(Clone, Copy, Debug, PartialEq, Eq, Structural)]
pub enum ErrorKind {
    /// The operation was asked of a backend variant that does not offer it.
    UnsupportedBackend,
    /// The row has no column of the requested name.
    ColumnNotFound,
    /// The column exists but its native value does not decode into the
    /// requested type.
    TypeMismatch,
    /// No usable connection to the datasource could be had.
    ConnectionError,
    /// The backend refused or failed to run the statement.
    ExecutionError,
}

/// The steps of one call to a datasource at which the backend, not this
/// layer, can fail.
#[derive(Clone, Copy, Debug, PartialEq, Eq, Structural)]
pub enum Stage {
    /// Finding the datasource of the given name.
    Resolving,
    /// Opening a connection to it.
    Connecting,
    /// Running the statement and receiving its rows.
    Executing,
}

impl Stage {
    /// The failure that the caller is told of when the backend fails at this
    /// step: what goes wrong before a statement is sent is a connection
    /// error, what goes wrong after is an execution error.
    pub open spec fn failure(self) -> ErrorKind {
        match self {
            Stage::Resolving => ErrorKind::ConnectionError,
            Stage::Connecting => ErrorKind::ConnectionError,
            Stage::Executing => ErrorKind::ExecutionError,
        }
    }
}

impl ErrorKind {
    /// The failure that stands for a backend failure at the step `stage`.
    pub fn of_backend_failure(stage: Stage) -> (kind: ErrorKind)
        ensures
            kind == stage.failure(),
    {
        match stage {
            Stage::Resolving => ErrorKind::ConnectionError,
            Stage::Connecting => ErrorKind::ConnectionError,
            Stage::Executing => ErrorKind::ExecutionError,
        }
    }
}

} // verus!
