//! The library's error type.

use vstd::prelude::*;

verus! {

/// What can go wrong while queueing or running jobs.
#[derive(Clone, Debug)]
pub enum BackyardError {
    /// A payload could not be turned into or out of JSON (the text says why).
    Serialization(String),
    /// The storage backend reported a failure.
    Backend(String),
    /// A job was looked for and not found.
    NotFound(String),
    /// No handler is registered for a job type.
    UnknownJobType(String),
    /// A job ran out of retries.
    MaxRetriesExceeded,
    /// The worker was asked to stop.
    Shutdown,
    /// A job's handler reported a failure.
    Execution(String),
}

/// Results of the library's operations.
pub type Result<T> = std::result::Result<T, BackyardError>;

impl BackyardError {
    /// The human-readable text of an error.
    pub open spec fn message_spec(self) -> Seq<char> {
        match self {
            BackyardError::Serialization(s) => "serialization error: "@ + s@,
            BackyardError::Backend(s) => "backend error: "@ + s@,
            BackyardError::NotFound(s) => "job not found: "@ + s@,
            BackyardError::UnknownJobType(s) => "handler not registered for job type: "@ + s@,
            BackyardError::MaxRetriesExceeded => "max retries exceeded"@,
            BackyardError::Shutdown => "shutdown signal received"@,
            BackyardError::Execution(s) => "job execution error: "@ + s@,
        }
    }

    /// The human-readable text of this error (what the error displays as).
    pub fn message(&self) -> (m: String)
        ensures
            m@ == self.message_spec(),
    {
        match self {
            BackyardError::Serialization(s) => String::from_str("serialization error: ").concat(s.as_str()),
            BackyardError::Backend(s) => String::from_str("backend error: ").concat(s.as_str()),
            BackyardError::NotFound(s) => String::from_str("job not found: ").concat(s.as_str()),
            BackyardError::UnknownJobType(s) => String::from_str(
                "handler not registered for job type: ",
            ).concat(s.as_str()),
            BackyardError::MaxRetriesExceeded => String::from_str("max retries exceeded"),
            BackyardError::Shutdown => String::from_str("shutdown signal received"),
            BackyardError::Execution(s) => String::from_str("job execution error: ").concat(s.as_str()),
        }
    }
}

} // verus!
