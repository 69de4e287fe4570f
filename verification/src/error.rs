//! The ways in which a deployment can fail.

use vstd::prelude::*;

verus! {

/// Why an agent gave up. Every failure is final for the agent that met it:
/// nothing is retried, and the next attempt starts with a fresh agent.
#[derive(Clone, Copy, Debug, PartialEq, Eq, Structural)]
pub enum AgentError {
    /// The container engine did not answer.
    RuntimeUnreachable,
    /// The image could not be fetched; no container was created.
    PullFailed,
    /// The engine refused to create the new container.
    CreationError,
    /// The engine refused to start the new container.
    StartError,
    /// The engine refused to remove the previous container, for a reason other
    /// than its absence.
    RemovalError,
    /// The record store could not be read, written or cleared.
    StoreUnavailable,
    /// The store holds something that is not a record.
    RecordCorrupt,
    /// `deploy` was asked of an agent that does not hold the lock.
    NotLocked,
    /// The store names a deployment that never finished, and the agent was
    /// told to reject rather than reclaim it.
    AlreadyDeploying,
    /// The record changed under an agent that held the lock.
    InvariantViolation,
}

impl AgentError {
    /// The sentence that `message` returns for each failure.
    pub open spec fn message_spec(self) -> Seq<char> {
        match self {
            AgentError::RuntimeUnreachable => "container engine is not reachable"@,
            AgentError::PullFailed => "image could not be pulled"@,
            AgentError::CreationError => "container could not be created"@,
            AgentError::StartError => "container could not be started"@,
            AgentError::RemovalError => "previous container could not be removed"@,
            AgentError::StoreUnavailable => "deployment record could not be read or written"@,
            AgentError::RecordCorrupt => "deployment record is unparsable"@,
            AgentError::NotLocked => "Agent needs to be locked before deploying"@,
            AgentError::AlreadyDeploying => "another deployment is already in progress"@,
            AgentError::InvariantViolation => "deployment record changed while deploying"@,
        }
    }

    /// A sentence for logs.
    pub fn message(&self) -> (text: &'static str)
        ensures
            text@ == self.message_spec(),
    {
        match self {
            AgentError::RuntimeUnreachable => "container engine is not reachable",
            AgentError::PullFailed => "image could not be pulled",
            AgentError::CreationError => "container could not be created",
            AgentError::StartError => "container could not be started",
            AgentError::RemovalError => "previous container could not be removed",
            AgentError::StoreUnavailable => "deployment record could not be read or written",
            AgentError::RecordCorrupt => "deployment record is unparsable",
            AgentError::NotLocked => "Agent needs to be locked before deploying",
            AgentError::AlreadyDeploying => "another deployment is already in progress",
            AgentError::InvariantViolation => "deployment record changed while deploying",
        }
    }
}

} // verus!
