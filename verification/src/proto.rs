//! The stored records and the wire values of the services, as plain values.
//!
//! Each type holds the fields that the runtime reads or writes. The protobuf schema owns the
//! field numbers and the numbers of the enum values: code generated from it converts to and
//! from these types. A wire number without a name here is kept as it came.

use vstd::prelude::*;

verus! {

/// A point in time: seconds and nanoseconds since the Unix epoch.
#[derive(Debug, Clone, Copy, PartialEq, Eq, Structural)]
pub struct Timestamp {
    pub seconds: i64,
    pub nanos: i32,
}

/// Whether an agent is in memory, as its state record says.
#[derive(Debug, Clone, Copy, PartialEq, Eq, Structural)]
pub enum AgentLifecycleStatus {
    /// Hydrated and processing a task.
    Active,
    /// Not in memory: all of its state is in the store.
    Frozen,
    /// Any other wire number.
    Other(i32),
}

/// What caused a checkpoint, as its wire number.
#[derive(Debug, Clone, Copy, PartialEq, Eq, Structural)]
pub struct CheckpointTrigger(pub i32);

/// The primary state of an agent.
#[derive(Debug, Clone)]
pub struct AgentStateRecord {
    pub status: AgentLifecycleStatus,
    /// Version of the working memory that this state belongs to.
    pub working_memory_version: u64,
    pub last_hydrated_at: Option<Timestamp>,
    pub last_frozen_at: Option<Timestamp>,
    /// The task being processed, or empty.
    pub current_task_id: String,
    /// Data classes that the current task has touched.
    pub current_task_taint: Vec<String>,
    pub schema_version: u32,
    /// The content that is protected at rest, if there is any.
    pub encryption: Option<EncryptionEnvelope>,
    /// The remaining fields of the record, encoded.
    pub other_fields: Vec<u8>,
}

/// The working memory of an agent.
#[derive(Debug, Clone)]
pub struct WorkingMemoryRecord {
    /// Counts the freezes: each one stores the next version.
    pub version: u64,
    pub snapshot_at: Option<Timestamp>,
    pub schema_version: u32,
    /// The content that is protected at rest, if there is any.
    pub encryption: Option<EncryptionEnvelope>,
    /// The remaining fields of the record, encoded.
    pub other_fields: Vec<u8>,
}

/// A copy of state and working memory, with a digest over both.
#[derive(Debug, Clone)]
pub struct CheckpointRecord {
    pub tenant_id: String,
    pub agent_id: String,
    pub checkpoint_seq: u64,
    pub trigger: CheckpointTrigger,
    pub pre_task_id: String,
    pub state_snapshot: Option<AgentStateRecord>,
    pub memory_snapshot: Option<WorkingMemoryRecord>,
    pub sha256_digest: Vec<u8>,
    pub created_at: Option<Timestamp>,
    pub schema_version: u32,
}

/// How the payload of an envelope is protected.
#[derive(Debug, Clone, Copy, PartialEq, Eq, Structural)]
pub enum EncryptionScheme {
    Plaintext,
    Aes256Gcm,
    FheTfheRs,
    /// A wire number that names no scheme.
    Unrecognized(i32),
}

/// A protected payload, as it stands in a record.
#[derive(Debug, Clone)]
pub struct EncryptionEnvelope {
    pub scheme: EncryptionScheme,
    pub key_id: String,
    pub iv_or_nonce: Vec<u8>,
    pub ciphertext: Vec<u8>,
    pub aad: Vec<u8>,
}

/// What a ciphertext is bound to: the encoded message that is authenticated with it.
#[derive(Debug, Clone)]
pub struct AadBinding {
    pub encoded: Vec<u8>,
}

/// How sensitive the data of a request is.
#[derive(Debug, Clone, Copy, PartialEq, Eq, Structural)]
pub enum SensitivityLevel {
    Unspecified,
    Public,
    Internal,
    Sensitive,
    Restricted,
    /// A wire number that names no level.
    Unrecognized(i32),
}

/// What kind of work an inference request is.
#[derive(Debug, Clone, Copy, PartialEq, Eq, Structural)]
pub enum TaskType {
    Unspecified,
    Classification,
    Orchestration,
    Reasoning,
    /// Any other wire number.
    Other(i32),
}

/// State of the circuit breaker in front of a model.
#[derive(Debug, Clone, Copy, PartialEq, Eq, Structural)]
pub enum CircuitBreakerState {
    Closed,
    HalfOpen,
    Open,
}

/// The namespace of a block in the KV cache.
#[derive(Debug, Clone)]
pub struct KvNamespaceKey {
    pub tenant_id: String,
    pub sensitivity: SensitivityLevel,
    pub agent_type: String,
    /// SHA-256 of the prefix of the system prompt.
    pub prefix_hash: Vec<u8>,
}

} // verus!
