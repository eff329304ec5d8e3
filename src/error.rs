//! The ways a start or a stop can fail.
use vstd::prelude::*;

verus! {

/// Failure of a supervisor operation.
#[derive(Debug)]
pub enum SupervisorError {
    /// The operating system refused to create the worker process.
    SpawnFailure { reason: String },
    /// The worker was spawned but never confirmed listening within the budget;
    /// it is left running for inspection.
    ReadinessTimeout { id: String, message: String },
    /// Reading or writing the configuration store failed.
    ConfigIoFailure { reason: String },
}

/// The text that describes an error.
pub open spec fn error_text(e: SupervisorError) -> Seq<char> {
    match e {
        SupervisorError::SpawnFailure { reason } => "Failed to spawn proxy worker: "@ + reason@,
        SupervisorError::ReadinessTimeout { id, message } => message@,
        SupervisorError::ConfigIoFailure { reason } => "Proxy config store failure: "@ + reason@,
    }
}

impl SupervisorError {
    /// A description of the error for people.
    pub fn message(&self) -> (r: String)
        ensures
            r@ == error_text(*self),
    {
        match self {
            SupervisorError::SpawnFailure { reason } => {
                let mut r = String::from_str("Failed to spawn proxy worker: ");
                r.append(reason.as_str());
                r
            },
            SupervisorError::ReadinessTimeout { id, message } => message.clone(),
            SupervisorError::ConfigIoFailure { reason } => {
                let mut r = String::from_str("Proxy config store failure: ");
                r.append(reason.as_str());
                r
            },
        }
    }
}

} // verus!
