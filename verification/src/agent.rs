//! Agents: their ids, configuration and lifecycle.

#[allow(unused_imports)]
use crate::text::{hex_of, lemma_hex_injective};
use uuid::Uuid;
use vstd::prelude::*;

verus! {

/// Seconds that a hydration may take before its agent is quarantined.
pub const HYDRATION_TIMEOUT_SECS: u64 = 15;

/// Id of an agent instance: the bytes of a UUID.
#[derive(Debug, Clone, Copy, PartialEq, Eq, Hash)]
pub struct AgentId(pub [u8; 16]);

/// Id of a task: the bytes of a UUID.
#[derive(Debug, Clone, Copy, PartialEq, Eq, Hash)]
pub struct TaskId(pub [u8; 16]);

/// Id that pairs a request with its response: the bytes of a UUID.
#[derive(Debug, Clone, Copy, PartialEq, Eq, Hash)]
pub struct CorrelationId(pub [u8; 16]);

/// Whether bytes carry the version and variant marks of a random UUID.
pub open spec fn is_random_uuid(bytes: Seq<u8>) -> bool {
    &&& bytes.len() == 16
    &&& bytes[6] / 16 == 4
    &&& bytes[8] / 64 == 2
}

/// The notation of a UUID: its hexadecimal digits in groups of 8, 4, 4, 4 and 12.
pub open spec fn uuid_text(bytes: Seq<u8>) -> Seq<char> {
    let digits = hex_of(bytes);
    digits.subrange(0, 8) + "-"@ + digits.subrange(8, 12) + "-"@ + digits.subrange(12, 16) + "-"@
        + digits.subrange(16, 20) + "-"@ + digits.subrange(20, 32)
}

/// `Uuid::new_v4`, as bytes. Its bits are random, but for the marks of a random UUID.
#[verifier::external_body]
fn random_uuid() -> (bytes: [u8; 16])
    ensures
        is_random_uuid(bytes@),
{
    Uuid::new_v4().into_bytes()
}

/// `Uuid`'s `Display`: the contract states the notation.
#[verifier::external_body]
fn rendered_uuid(bytes: &[u8; 16]) -> (text: String)
    ensures
        text@ == uuid_text(bytes@),
{
    Uuid::from_bytes(*bytes).to_string()
}

impl AgentId {
    /// The text of the id.
    pub open spec fn text(&self) -> Seq<char> {
        "agent:"@ + uuid_text(self.0@)
    }

    /// Whether the id was drawn by `random_uuid`.
    pub closed spec fn is_drawn(&self) -> bool {
        call_ensures(random_uuid, (), self.0)
    }

    /// A fresh random id.
    pub fn new() -> (id: Self)
        ensures
            id.is_drawn(),
            is_random_uuid(id.0@),
    {
        AgentId(random_uuid())
    }

    /// Renders the id.
    pub fn to_text(&self) -> (text: String)
        ensures
            text@ == self.text(),
    {
        let mut text = "agent:".to_owned();
        text.append(rendered_uuid(&self.0).as_str());
        text
    }
}

impl Default for AgentId {
    /// A fresh random id.
    fn default() -> (id: Self)
        ensures
            id.is_drawn(),
            is_random_uuid(id.0@),
    {
        Self::new()
    }
}

impl TaskId {
    /// Whether the id was drawn by `random_uuid`.
    pub closed spec fn is_drawn(&self) -> bool {
        call_ensures(random_uuid, (), self.0)
    }

    /// A fresh random id.
    pub fn new() -> (id: Self)
        ensures
            id.is_drawn(),
            is_random_uuid(id.0@),
    {
        TaskId(random_uuid())
    }
}

impl Default for TaskId {
    /// A fresh random id.
    fn default() -> (id: Self)
        ensures
            id.is_drawn(),
            is_random_uuid(id.0@),
    {
        Self::new()
    }
}

/// The text of an agent id determines it: no two agents are rendered alike.
pub proof fn law_agent_texts_are_distinct(a: AgentId, b: AgentId)
    requires
        a.text() == b.text(),
    ensures
        a.0@ == b.0@,
{
    reveal_strlit("agent:");
    reveal_strlit("-");
    let x = hex_of(a.0@);
    let y = hex_of(b.0@);
    assert(x.len() == 32);
    assert(y.len() == 32);
    assert forall|i: int| 0 <= i < 32 implies x[i] == y[i] by {
        let shift: int = if i < 8 {
            6
        } else if i < 12 {
            7
        } else if i < 16 {
            8
        } else if i < 20 {
            9
        } else {
            10
        };
        assert(a.text()[i + shift] == x[i]);
        assert(b.text()[i + shift] == y[i]);
    }
    assert(x =~= y);
    lemma_hex_injective(a.0@, b.0@);
}

/// Where an agent is in its life.
#[derive(Debug, Clone, Copy, PartialEq, Eq, Structural)]
pub enum AgentLifecycleState {
    /// Not in memory: all of its state is in the store.
    Frozen,
    /// Its state is being read.
    Hydrating,
    /// It processes messages.
    Active,
    /// It finishes what it has begun and takes nothing new.
    Draining,
    /// Its state is being written.
    Freezing,
    /// It has crashed too often and waits for a recovery command.
    Quarantined,
}

/// A capability that an agent advertises for task routing.
#[derive(Debug, Clone, PartialEq, Eq, Hash)]
pub struct Capability(pub String);

/// Which inference hardware an agent or a task may use.
#[derive(Debug, Clone, Copy, PartialEq, Eq, Structural)]
pub enum InferenceTier {
    /// The open pool, for anything that is not restricted.
    Open,
    /// The restricted pod. Without it a request is rejected: there is no way back to the open
    /// pool.
    Restricted,
}

/// Settings of an agent.
#[derive(Debug, Clone)]
pub struct AgentConfig {
    /// Name for people.
    pub persona: String,
    /// Capabilities for task routing.
    pub capabilities: Vec<Capability>,
    /// Tools that the agent may hold at a time.
    pub max_tools: u32,
    /// Size of the context window in tokens.
    pub max_context_tokens: u32,
    /// Idle seconds before the agent drains.
    pub idle_ttl_secs: u64,
    /// Inference hardware that the agent may use.
    pub inference_tier: InferenceTier,
}

impl Default for AgentConfig {
    /// An agent without a name or capabilities.
    fn default() -> (config: Self)
        ensures
            config.persona@ == "unnamed"@,
            config.capabilities@ == Seq::<Capability>::empty(),
            config.max_tools == 16,
            config.max_context_tokens == 128_000,
            config.idle_ttl_secs == 300,
            config.inference_tier == InferenceTier::Open,
    {
        AgentConfig {
            persona: "unnamed".to_owned(),
            capabilities: Vec::new(),
            max_tools: 16,
            max_context_tokens: 128_000,
            idle_ttl_secs: 300,
            inference_tier: InferenceTier::Open,
        }
    }
}

/// Priority of a task.
#[derive(Debug, Clone, Copy, PartialEq, Eq, PartialOrd, Ord, Structural)]
pub enum TaskPriority {
    Low,
    Normal,
    High,
}

impl Default for TaskPriority {
    /// The usual priority.
    fn default() -> (priority: Self)
        ensures
            priority == TaskPriority::Normal,
    {
        TaskPriority::Normal
    }
}

/// A command of the supervisor to an agent.
#[derive(Debug, Clone)]
pub enum LifecycleCommand {
    /// Finish what has begun before a freeze.
    Drain,
    /// Write the state and stop.
    Freeze,
    /// Stop, and do not start again.
    Quarantine { reason: String },
    /// Leave quarantine and hydrate again.
    Recover,
}

/// Who speaks in a turn of a conversation.
#[derive(Debug, Clone, Copy, PartialEq, Eq, Structural)]
pub enum ConversationRole {
    System,
    User,
    Assistant,
    Tool,
}

/// Version token of a stored snapshot.
#[derive(Debug, Clone, PartialEq, Eq)]
pub struct ETag(pub String);

/// Status of a workflow instance.
#[derive(Debug, Clone, Copy, PartialEq, Eq, Structural)]
pub enum WorkflowRuntimeStatus {
    Running,
    Completed,
    Failed,
    Cancelled,
    Terminated,
    Pending,
    Suspended,
}

/// An agent id is rendered as `agent:` and its UUID, thirty-two hexadecimal digits and four
/// hyphens, and ids that are rendered alike are the same.
pub proof fn law_rendered_ids_are_distinct(a: AgentId, b: AgentId, text_a: String, text_b: String)
    requires
        call_ensures(AgentId::to_text, (&a,), text_a),
        call_ensures(AgentId::to_text, (&b,), text_b),
    ensures
        "agent:"@.is_prefix_of(text_a@),
        text_a@.len() == 42,
        text_a@ == text_b@ <==> a.0@ == b.0@,
{
    reveal_strlit("agent:");
    reveal_strlit("-");
    assert(hex_of(a.0@).len() == 32);
    if text_a@ == text_b@ {
        law_agent_texts_are_distinct(a, b);
    }
}

} // verus!
