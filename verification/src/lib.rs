//! Verified core of a swarm runtime for virtual actor agents.
//!
//! Agents are hydrated from, and frozen to, a key-value state store with optimistic concurrency.
//! The library holds what the runtime decides: keys, records, hydration, freezing, recovery,
//! encryption, migrations, budgets, cache namespaces and backpressure. Network, storage and
//! timers belong to the program around it.

pub mod agent;
pub mod agent_error;
pub mod backpressure;
pub mod budget;
pub mod checkpoint;
pub mod client;
pub mod clock;
pub mod digest;
pub mod encryption;
pub mod error;
pub mod freeze;
pub mod gc;
pub mod hydrate;
pub mod keys;
pub mod lance_schema;
pub mod metrics;
pub mod migrations;
pub mod namespace;
pub mod proto;
pub mod snapshot;
pub mod store;
pub mod text;

pub use crate::keys::{
    agent_state_key, checkpoint_key, conversation_turn_key, tool_log_key, working_memory_key,
    KEY_PREFIX, KEY_SEP,
};
use vstd::prelude::*;

verus! {

/// Slots of a working memory.
pub const MAX_WORKING_MEMORY_SLOTS: usize = 32;

/// Facts that an agent may pin.
pub const MAX_PINNED_FACTS: usize = 64;

/// Goals that an agent may stack.
pub const MAX_GOAL_STACK_DEPTH: usize = 32;

/// Schema version of new records.
pub const LATEST_SCHEMA_VERSION: u32 = 1;

} // verus!
