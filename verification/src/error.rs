use vstd::prelude::*;

use crate::status::TaskStatus;

verus! {

/// The kind of record an operation looked for when it failed.
#[derive(Clone, Copy, Debug, PartialEq, Eq, Structural)]
pub enum EntityKind {
    Plan,
    Av,
    Sampler,
    Simulator,
    MapRecord,
    Scenario,
    Worker,
    Task,
}

/// Error taxonomy of the task service. Every storage-layer failure is
/// translated into one of these kinds before it crosses the service boundary.
#[derive(Clone, Copy, Debug, PartialEq, Eq, Structural)]
pub enum TaskServiceError {
    /// The storage layer itself failed; a claim is safe to retry, since it has
    /// no side effect until it commits.
    Database,
    /// A reference given at creation does not exist: a client fault.
    Validation(EntityKind),
    /// The named record does not exist: a client fault.
    NotFound(EntityKind),
    /// A lifecycle transition was attempted from the wrong state; carries the
    /// status the task was found in.
    InvalidState(TaskStatus),
    /// A reference of an already-claimed task is missing: a server fault that
    /// only out-of-band mutation of the reference data can produce.
    DataInconsistency(EntityKind),
}

impl TaskServiceError {
    /// The HTTP status code of each error kind: client faults are 400 (404
    /// for an unknown record), server faults are 500.
    pub fn status_code(&self) -> (c: u16)
        ensures
            c == match *self {
                TaskServiceError::Database => 500u16,
                TaskServiceError::Validation(_) => 400u16,
                TaskServiceError::NotFound(_) => 404u16,
                TaskServiceError::InvalidState(_) => 400u16,
                TaskServiceError::DataInconsistency(_) => 500u16,
            },
    {
        match self {
            TaskServiceError::Database => 500,
            TaskServiceError::Validation(_) => 400,
            TaskServiceError::NotFound(_) => 404,
            TaskServiceError::InvalidState(_) => 400,
            TaskServiceError::DataInconsistency(_) => 500,
        }
    }
}

} // verus!
