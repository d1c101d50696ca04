//! Errors of agents and of the clients that they use.

#[allow(unused_imports)]
use crate::text::decimal;
use crate::text::decimal_text;
use vstd::prelude::*;

verus! {

/// Errors of agent message handlers.
#[derive(Debug)]
pub enum AgentError {
    /// The handler panicked.
    Panic { backtrace: String },
    /// A task failed.
    TaskFailed { reason: String },
    /// A lifecycle command failed.
    LifecycleCommandFailed { reason: String },
    /// Any other failure.
    Internal(String),
}

impl AgentError {
    /// The text of the error.
    pub open spec fn text(&self) -> Seq<char> {
        match self {
            AgentError::Panic { backtrace } => "agent panicked during message handling: "@ + backtrace@,
            AgentError::TaskFailed { reason } => "task failed: "@ + reason@,
            AgentError::LifecycleCommandFailed { reason } => "lifecycle command failed: "@ + reason@,
            AgentError::Internal(reason) => "internal error: "@ + reason@,
        }
    }

    /// Renders the error for people.
    pub fn message(&self) -> (message: String)
        ensures
            message@ == self.text(),
    {
        match self {
            AgentError::Panic { backtrace } => {
                let mut message = "agent panicked during message handling: ".to_owned();
                message.append(backtrace.as_str());
                message
            },
            AgentError::TaskFailed { reason } => {
                let mut message = "task failed: ".to_owned();
                message.append(reason.as_str());
                message
            },
            AgentError::LifecycleCommandFailed { reason } => {
                let mut message = "lifecycle command failed: ".to_owned();
                message.append(reason.as_str());
                message
            },
            AgentError::Internal(reason) => {
                let mut message = "internal error: ".to_owned();
                message.append(reason.as_str());
                message
            },
        }
    }
}

/// Errors of the hydration process.
#[derive(Debug)]
pub enum HydrationError {
    /// The snapshot could not be read.
    StateReadFailed(DaprError),
    /// The snapshot could not be decoded.
    DeserializationFailed { snapshot_version: u32, reason: String },
    /// The snapshot could not be migrated.
    MigrationFailed { from_version: u32, to_version: u32, reason: String },
    /// Hydration took too long.
    Timeout { elapsed_ms: u64 },
}

impl HydrationError {
    /// The text of the error.
    pub open spec fn text(&self) -> Seq<char> {
        match self {
            HydrationError::StateReadFailed(cause) => "failed to read snapshot from state store: "@ + cause.text(),
            HydrationError::DeserializationFailed { snapshot_version, reason } => "failed to deserialize snapshot (version "@ + decimal(*snapshot_version as nat) + "): "@ + reason@,
            HydrationError::MigrationFailed { from_version, to_version, reason } => "snapshot migration failed from v"@ + decimal(*from_version as nat) + " to v"@ + decimal(*to_version as nat) + ": "@ + reason@,
            HydrationError::Timeout { elapsed_ms } => "hydration timeout after "@ + decimal(*elapsed_ms as nat) + "ms"@,
        }
    }

    /// Renders the error for people.
    pub fn message(&self) -> (message: String)
        ensures
            message@ == self.text(),
    {
        match self {
            HydrationError::StateReadFailed(cause) => {
                let mut message = "failed to read snapshot from state store: ".to_owned();
                message.append(cause.message().as_str());
                message
            },
            HydrationError::DeserializationFailed { snapshot_version, reason } => {
                let mut message = "failed to deserialize snapshot (version ".to_owned();
                message.append(decimal_text(*snapshot_version as u64).as_str());
                message.append("): ");
                message.append(reason.as_str());
                message
            },
            HydrationError::MigrationFailed { from_version, to_version, reason } => {
                let mut message = "snapshot migration failed from v".to_owned();
                message.append(decimal_text(*from_version as u64).as_str());
                message.append(" to v");
                message.append(decimal_text(*to_version as u64).as_str());
                message.append(": ");
                message.append(reason.as_str());
                message
            },
            HydrationError::Timeout { elapsed_ms } => {
                let mut message = "hydration timeout after ".to_owned();
                message.append(decimal_text(*elapsed_ms).as_str());
                message.append("ms");
                message
            },
        }
    }
}

/// Errors of the freeze process.
#[derive(Debug)]
pub enum FreezeError {
    /// The snapshot could not be encoded.
    SerializationFailed { reason: String },
    /// The snapshot could not be written.
    StateWriteFailed(DaprError),
    /// Another writer came first.
    ETagConflict,
}

impl FreezeError {
    /// The text of the error.
    pub open spec fn text(&self) -> Seq<char> {
        match self {
            FreezeError::SerializationFailed { reason } => "failed to serialize snapshot: "@ + reason@,
            FreezeError::StateWriteFailed(cause) => "failed to write snapshot to state store: "@ + cause.text(),
            FreezeError::ETagConflict => "ETag conflict on freeze — concurrent write detected"@,
        }
    }

    /// Renders the error for people.
    pub fn message(&self) -> (message: String)
        ensures
            message@ == self.text(),
    {
        match self {
            FreezeError::SerializationFailed { reason } => {
                let mut message = "failed to serialize snapshot: ".to_owned();
                message.append(reason.as_str());
                message
            },
            FreezeError::StateWriteFailed(cause) => {
                let mut message = "failed to write snapshot to state store: ".to_owned();
                message.append(cause.message().as_str());
                message
            },
            FreezeError::ETagConflict => "ETag conflict on freeze — concurrent write detected".to_owned(),
        }
    }
}

/// Errors of operations that go through the sidecar.
#[derive(Debug)]
pub enum DaprError {
    /// A write did not match the stored version.
    ETagMismatch { agent_id: String },
    /// No record of the agent exists.
    NotFound { agent_id: String },
    /// The store cannot be reached.
    Unavailable { reason: String },
    /// The call failed with a transport status.
    Transport(String),
    /// Any other failure.
    Internal(String),
}

impl DaprError {
    /// The text of the error.
    pub open spec fn text(&self) -> Seq<char> {
        match self {
            DaprError::ETagMismatch { agent_id } => "ETag mismatch: concurrent write detected for agent "@ + agent_id@,
            DaprError::NotFound { agent_id } => "agent not found in state store: "@ + agent_id@,
            DaprError::Unavailable { reason } => "state store unavailable: "@ + reason@,
            DaprError::Transport(status) => "transport error: "@ + status@,
            DaprError::Internal(reason) => "internal error: "@ + reason@,
        }
    }

    /// Renders the error for people.
    pub fn message(&self) -> (message: String)
        ensures
            message@ == self.text(),
    {
        match self {
            DaprError::ETagMismatch { agent_id } => {
                let mut message = "ETag mismatch: concurrent write detected for agent ".to_owned();
                message.append(agent_id.as_str());
                message
            },
            DaprError::NotFound { agent_id } => {
                let mut message = "agent not found in state store: ".to_owned();
                message.append(agent_id.as_str());
                message
            },
            DaprError::Unavailable { reason } => {
                let mut message = "state store unavailable: ".to_owned();
                message.append(reason.as_str());
                message
            },
            DaprError::Transport(status) => {
                let mut message = "transport error: ".to_owned();
                message.append(status.as_str());
                message
            },
            DaprError::Internal(reason) => {
                let mut message = "internal error: ".to_owned();
                message.append(reason.as_str());
                message
            },
        }
    }
}

/// Errors of snapshot version migration.
#[derive(Debug)]
pub enum MigrationError {
    /// No chain of registered steps leads to the wanted version.
    NoMigrationPath { from_version: u32, to_version: u32 },
    /// A step of the chain failed.
    StepFailed { from_version: u32, to_version: u32, reason: String },
}

impl MigrationError {
    /// The text of the error.
    pub open spec fn text(&self) -> Seq<char> {
        match self {
            MigrationError::NoMigrationPath { from_version, to_version } => "no migration path from v"@ + decimal(*from_version as nat) + " to v"@ + decimal(*to_version as nat),
            MigrationError::StepFailed { from_version, to_version, reason } => "migration step failed (v"@ + decimal(*from_version as nat) + " → v"@ + decimal(*to_version as nat) + "): "@ + reason@,
        }
    }

    /// Renders the error for people.
    pub fn message(&self) -> (message: String)
        ensures
            message@ == self.text(),
    {
        match self {
            MigrationError::NoMigrationPath { from_version, to_version } => {
                let mut message = "no migration path from v".to_owned();
                message.append(decimal_text(*from_version as u64).as_str());
                message.append(" to v");
                message.append(decimal_text(*to_version as u64).as_str());
                message
            },
            MigrationError::StepFailed { from_version, to_version, reason } => {
                let mut message = "migration step failed (v".to_owned();
                message.append(decimal_text(*from_version as u64).as_str());
                message.append(" → v");
                message.append(decimal_text(*to_version as u64).as_str());
                message.append("): ");
                message.append(reason.as_str());
                message
            },
        }
    }
}

/// Errors of state clients.
pub type StateError = DaprError;

} // verus!
