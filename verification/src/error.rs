//! Errors of the state layer.

#[allow(unused_imports)]
use crate::text::decimal;
use crate::text::decimal_text;
use vstd::prelude::*;

verus! {

/// Errors of state store operations.
#[derive(Debug)]
pub enum StateError {
    /// A write did not match the stored ETag: read the record again, then retry.
    ETagConflict { key: String },
    /// The agent is hydrated and processing a task.
    AgentBusy { tenant_id: String, agent_id: String, last_hydrated_secs: u64 },
    /// The state record and the working memory record do not belong to one freeze, and no
    /// checkpoint could replace them.
    TornWrite { agent_id: String, state_version: u64, memory_version: u64 },
    /// No valid checkpoint to recover from.
    NoCheckpointAvailable { tenant_id: String, agent_id: String },
    /// The digest of a checkpoint does not match its contents.
    CheckpointCorrupted { agent_id: String, seq: u64 },
    /// The key is unavailable. Hydration is refused, never done in plaintext instead.
    EncryptionKeyUnavailable { key_id: String, agent_id: String, source: String },
    /// Memory entries that the state record refers to are not on this node.
    LanceDbMigrationGap { agent_id: String, missing_count: usize },
    /// The schema version of a stored record is unknown here.
    UnsupportedSchemaVersion { record_type: String, found: u32, max_known: u32 },
    /// An argument is not acceptable, such as an id that contains the key separator.
    InvalidInput(String),
    /// The state store failed.
    DaprError(String),
    /// A stored record could not be decoded.
    ProtoError(String),
    /// Encryption or decryption with AES-256-GCM failed.
    AesGcmError,
    /// Any other storage failure.
    Storage(String),
}

impl StateError {
    /// The text of the error.
    pub open spec fn text(&self) -> Seq<char> {
        match self {
            StateError::ETagConflict { key } => "ETag conflict on key "@ + key@ + ": concurrent write detected"@,
            StateError::AgentBusy { tenant_id, agent_id, last_hydrated_secs } => "agent "@ + agent_id@ + " in tenant "@ + tenant_id@ + " is currently ACTIVE (last hydrated: "@ + decimal(*last_hydrated_secs as nat) + "s ago)"@,
            StateError::TornWrite { agent_id, state_version, memory_version } => "torn write detected for agent "@ + agent_id@ + ": state.working_memory_version="@ + decimal(*state_version as nat) + " != memory.version="@ + decimal(*memory_version as nat),
            StateError::NoCheckpointAvailable { tenant_id, agent_id } => "no valid checkpoint for agent "@ + agent_id@ + " in tenant "@ + tenant_id@ + "; manual recovery required"@,
            StateError::CheckpointCorrupted { agent_id, seq } => "checkpoint "@ + decimal(*seq as nat) + " for agent "@ + agent_id@ + " has invalid digest; possible tampering"@,
            StateError::EncryptionKeyUnavailable { key_id, agent_id, source } => "encryption key "@ + key_id@ + " unavailable for agent "@ + agent_id@ + ": "@ + source@,
            StateError::LanceDbMigrationGap { agent_id, missing_count } => "LanceDB migration gap for agent "@ + agent_id@ + ": "@ + decimal(*missing_count as nat) + " record(s) missing"@,
            StateError::UnsupportedSchemaVersion { record_type, found, max_known } => "unsupported schema version "@ + decimal(*found as nat) + " for record type "@ + record_type@ + " (max known: "@ + decimal(*max_known as nat) + ")"@,
            StateError::InvalidInput(reason) => "invalid input: "@ + reason@,
            StateError::DaprError(reason) => "Dapr state store error: "@ + reason@,
            StateError::ProtoError(reason) => "proto encode/decode error: "@ + reason@,
            StateError::AesGcmError => "AES-GCM error: authentication tag mismatch or corrupted ciphertext"@,
            StateError::Storage(reason) => "storage error: "@ + reason@,
        }
    }

    /// Renders the error for people.
    pub fn message(&self) -> (message: String)
        ensures
            message@ == self.text(),
    {
        match self {
            StateError::ETagConflict { key } => {
                let mut message = "ETag conflict on key ".to_owned();
                message.append(key.as_str());
                message.append(": concurrent write detected");
                message
            },
            StateError::AgentBusy { tenant_id, agent_id, last_hydrated_secs } => {
                let mut message = "agent ".to_owned();
                message.append(agent_id.as_str());
                message.append(" in tenant ");
                message.append(tenant_id.as_str());
                message.append(" is currently ACTIVE (last hydrated: ");
                message.append(decimal_text(*last_hydrated_secs).as_str());
                message.append("s ago)");
                message
            },
            StateError::TornWrite { agent_id, state_version, memory_version } => {
                let mut message = "torn write detected for agent ".to_owned();
                message.append(agent_id.as_str());
                message.append(": state.working_memory_version=");
                message.append(decimal_text(*state_version).as_str());
                message.append(" != memory.version=");
                message.append(decimal_text(*memory_version).as_str());
                message
            },
            StateError::NoCheckpointAvailable { tenant_id, agent_id } => {
                let mut message = "no valid checkpoint for agent ".to_owned();
                message.append(agent_id.as_str());
                message.append(" in tenant ");
                message.append(tenant_id.as_str());
                message.append("; manual recovery required");
                message
            },
            StateError::CheckpointCorrupted { agent_id, seq } => {
                let mut message = "checkpoint ".to_owned();
                message.append(decimal_text(*seq).as_str());
                message.append(" for agent ");
                message.append(agent_id.as_str());
                message.append(" has invalid digest; possible tampering");
                message
            },
            StateError::EncryptionKeyUnavailable { key_id, agent_id, source } => {
                let mut message = "encryption key ".to_owned();
                message.append(key_id.as_str());
                message.append(" unavailable for agent ");
                message.append(agent_id.as_str());
                message.append(": ");
                message.append(source.as_str());
                message
            },
            StateError::LanceDbMigrationGap { agent_id, missing_count } => {
                let mut message = "LanceDB migration gap for agent ".to_owned();
                message.append(agent_id.as_str());
                message.append(": ");
                message.append(decimal_text(*missing_count as u64).as_str());
                message.append(" record(s) missing");
                message
            },
            StateError::UnsupportedSchemaVersion { record_type, found, max_known } => {
                let mut message = "unsupported schema version ".to_owned();
                message.append(decimal_text(*found as u64).as_str());
                message.append(" for record type ");
                message.append(record_type.as_str());
                message.append(" (max known: ");
                message.append(decimal_text(*max_known as u64).as_str());
                message.append(")");
                message
            },
            StateError::InvalidInput(reason) => {
                let mut message = "invalid input: ".to_owned();
                message.append(reason.as_str());
                message
            },
            StateError::DaprError(reason) => {
                let mut message = "Dapr state store error: ".to_owned();
                message.append(reason.as_str());
                message
            },
            StateError::ProtoError(reason) => {
                let mut message = "proto encode/decode error: ".to_owned();
                message.append(reason.as_str());
                message
            },
            StateError::AesGcmError => "AES-GCM error: authentication tag mismatch or corrupted ciphertext".to_owned(),
            StateError::Storage(reason) => {
                let mut message = "storage error: ".to_owned();
                message.append(reason.as_str());
                message
            },
        }
    }
}

/// Result of a state store operation.
pub type StateResult<T> = Result<T, StateError>;

} // verus!
