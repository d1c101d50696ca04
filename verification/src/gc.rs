//! Garbage collection: which records of an agent have outlived their time.
//!
//! A store that expires records by itself does most of this on its own. For one that does not, a
//! sweep names the keys to delete. An erasure names all keys of a tenant, whatever their age.

use crate::error::{StateError, StateResult};
use crate::freeze::WORKING_MEMORY_TTL_SECS;
use crate::keys::{
    agent_state_key, checkpoint_key, conversation_turn_key, tool_log_key, working_memory_key,
};
#[allow(unused_imports)]
use crate::keys::{
    law_key_kinds_are_distinct, law_keys_are_distinct, record_key, straddles, valid_id, RecordName,
};
use crate::store::DaprStateStore;
#[allow(unused_imports)]
use crate::store::id_complaint;
use vstd::prelude::*;

verus! {

/// Seconds of a day.
pub const SECS_PER_DAY: u64 = 86400;

/// Seconds between two sweeps.
pub const GC_INTERVAL_SECS: u64 = 300;

/// What is kept, and for how long.
#[derive(Debug, Clone, Copy, PartialEq, Eq, Structural)]
pub struct GcConfig {
    /// Checkpoints to keep per agent.
    pub max_retained_checkpoints: u32,
    /// Whether checkpoints from before a task are kept beyond that number.
    pub retain_pre_task_checkpoints: bool,
    /// Days for which records are kept in any case. Zero leaves it to the other settings.
    pub compliance_retain_days: u32,
    /// Days to keep conversation turns.
    pub conversation_turn_ttl_days: u32,
    /// Days to keep logs of tool calls.
    pub tool_log_ttl_days: u32,
}

impl Default for GcConfig {
    /// The settings of a tenant that sets nothing.
    fn default() -> (config: Self)
        ensures
            config == (GcConfig {
                max_retained_checkpoints: 5,
                retain_pre_task_checkpoints: true,
                compliance_retain_days: 0,
                conversation_turn_ttl_days: 30,
                tool_log_ttl_days: 90,
            }),
    {
        GcConfig {
            max_retained_checkpoints: 5,
            retain_pre_task_checkpoints: true,
            compliance_retain_days: 0,
            conversation_turn_ttl_days: 30,
            tool_log_ttl_days: 90,
        }
    }
}

/// A stored checkpoint.
#[derive(Debug, Clone, Copy, PartialEq, Eq, Structural)]
pub struct StoredCheckpoint {
    pub seq: u64,
    /// Whether it was taken before a task.
    pub pre_task: bool,
    /// Full days since it was written.
    pub age_days: u64,
}

/// A stored conversation turn or log of a tool call.
#[derive(Debug)]
pub struct StoredEntry {
    pub id: String,
    /// Full days since it was written.
    pub age_days: u64,
}

/// What the store holds of an agent.
#[derive(Debug)]
pub struct AgentRecords {
    pub tenant_id: String,
    pub agent_id: String,
    /// Whether there is a state record.
    pub has_state: bool,
    /// Whether there is a working memory record.
    pub has_memory: bool,
    /// Seconds since the working memory was written, where there is one and the agent is frozen.
    pub memory_age_secs: Option<u64>,
    pub checkpoints: Vec<StoredCheckpoint>,
    pub turns: Vec<StoredEntry>,
    pub tool_logs: Vec<StoredEntry>,
}

/// Whether checkpoint `j` is newer than checkpoint `i`. Of two with the same number the first in
/// the list counts as the newer one.
pub open spec fn is_newer(checkpoints: Seq<StoredCheckpoint>, j: int, i: int) -> bool {
    checkpoints[j].seq > checkpoints[i].seq || (checkpoints[j].seq == checkpoints[i].seq && j < i)
}

/// How many of the first `n` checkpoints are newer than checkpoint `i`.
pub open spec fn newer_count(checkpoints: Seq<StoredCheckpoint>, i: int, n: nat) -> nat
    decreases n,
{
    if n == 0 {
        0
    } else {
        newer_count(checkpoints, i, (n - 1) as nat) + if is_newer(checkpoints, n - 1, i) {
            1nat
        } else {
            0
        }
    }
}

impl GcConfig {
    /// Whether records of this age are kept in any case.
    pub open spec fn in_retention(&self, age_days: u64) -> bool {
        0 < self.compliance_retain_days && age_days <= self.compliance_retain_days
    }

    /// Whether an entry that is due after `ttl_days` is kept.
    pub open spec fn keeps_entry(&self, ttl_days: u32, age_days: u64) -> bool {
        age_days <= ttl_days || self.in_retention(age_days)
    }

    /// Whether a checkpoint is kept whatever its rank.
    pub open spec fn protects(&self, checkpoint: StoredCheckpoint) -> bool {
        (self.retain_pre_task_checkpoints && checkpoint.pre_task) || self.in_retention(
            checkpoint.age_days,
        )
    }

    /// Whether checkpoint `i` is kept: it is protected, or it is among the newest.
    pub open spec fn keeps_checkpoint(&self, checkpoints: Seq<StoredCheckpoint>, i: int) -> bool {
        self.protects(checkpoints[i]) || newer_count(checkpoints, i, checkpoints.len())
            < self.max_retained_checkpoints
    }

    /// The keys of the checkpoints among the first `n` that are not kept.
    pub open spec fn expired_checkpoints(&self, records: AgentRecords, n: nat) -> Seq<Seq<char>>
        decreases n,
    {
        if n == 0 {
            seq![]
        } else {
            let before = self.expired_checkpoints(records, (n - 1) as nat);
            if self.keeps_checkpoint(records.checkpoints@, n - 1) {
                before
            } else {
                before.push(
                    record_key(
                        records.tenant_id@,
                        records.agent_id@,
                        RecordName::Checkpoint(records.checkpoints@[n - 1].seq),
                    ),
                )
            }
        }
    }

    /// The keys of the conversation turns among the first `n` that are not kept.
    pub open spec fn expired_turns(&self, records: AgentRecords, n: nat) -> Seq<Seq<char>>
        decreases n,
    {
        if n == 0 {
            seq![]
        } else {
            let before = self.expired_turns(records, (n - 1) as nat);
            let turn = records.turns@[n - 1];
            if self.keeps_entry(self.conversation_turn_ttl_days, turn.age_days) {
                before
            } else {
                before.push(
                    record_key(
                        records.tenant_id@,
                        records.agent_id@,
                        RecordName::ConversationTurn(turn.id@),
                    ),
                )
            }
        }
    }

    /// The keys of the logs of tool calls among the first `n` that are not kept.
    pub open spec fn expired_tool_logs(&self, records: AgentRecords, n: nat) -> Seq<Seq<char>>
        decreases n,
    {
        if n == 0 {
            seq![]
        } else {
            let before = self.expired_tool_logs(records, (n - 1) as nat);
            let log = records.tool_logs@[n - 1];
            if self.keeps_entry(self.tool_log_ttl_days, log.age_days) {
                before
            } else {
                before.push(
                    record_key(
                        records.tenant_id@,
                        records.agent_id@,
                        RecordName::ToolLog(log.id@),
                    ),
                )
            }
        }
    }

    /// Whether a working memory of this age is kept.
    pub open spec fn keeps_memory(&self, age_secs: u64) -> bool {
        age_secs <= WORKING_MEMORY_TTL_SECS || self.in_retention(age_secs / SECS_PER_DAY)
    }

    /// The key of the working memory, where it is not kept.
    pub open spec fn expired_memory(&self, records: AgentRecords) -> Seq<Seq<char>> {
        if records.memory_age_secs matches Some(age) && !self.keeps_memory(age) {
            seq![record_key(records.tenant_id@, records.agent_id@, RecordName::WorkingMemory)]
        } else {
            seq![]
        }
    }

    /// All keys of an agent that a sweep deletes.
    pub open spec fn expired_keys(&self, records: AgentRecords) -> Seq<Seq<char>> {
        self.expired_memory(records) + self.expired_checkpoints(records, records.checkpoints@.len())
            + self.expired_turns(records, records.turns@.len()) + self.expired_tool_logs(
            records,
            records.tool_logs@.len(),
        )
    }

    fn is_in_retention(&self, age_days: u64) -> (kept: bool)
        ensures
            kept == self.in_retention(age_days),
    {
        0 < self.compliance_retain_days && age_days <= self.compliance_retain_days as u64
    }

    /// How many checkpoints are newer than checkpoint `i`.
    fn rank(checkpoints: &Vec<StoredCheckpoint>, i: usize) -> (rank: usize)
        requires
            i < checkpoints@.len(),
        ensures
            rank == newer_count(checkpoints@, i as int, checkpoints@.len()),
    {
        let mut rank: usize = 0;
        let mut j: usize = 0;
        while j < checkpoints.len()
            invariant
                i < checkpoints@.len(),
                j <= checkpoints@.len(),
                rank <= j,
                rank == newer_count(checkpoints@, i as int, j as nat),
            decreases checkpoints@.len() - j,
        {
            if checkpoints[j].seq > checkpoints[i].seq || (checkpoints[j].seq == checkpoints[i].seq
                && j < i) {
                rank = rank + 1;
            }
            j = j + 1;
        }
        rank
    }

    fn collect_checkpoints(&self, records: &AgentRecords, keys: &mut Vec<String>)
        ensures
            texts(final(keys)@) == texts(old(keys)@) + self.expired_checkpoints(
                *records,
                records.checkpoints@.len(),
            ),
    {
        let mut i: usize = 0;
        while i < records.checkpoints.len()
            invariant
                i <= records.checkpoints@.len(),
                texts(keys@) == texts(old(keys)@) + self.expired_checkpoints(*records, i as nat),
            decreases records.checkpoints@.len() - i,
        {
            let checkpoint = records.checkpoints[i];
            let protected = (self.retain_pre_task_checkpoints && checkpoint.pre_task)
                || self.is_in_retention(checkpoint.age_days);
            if !protected {
                let rank = Self::rank(&records.checkpoints, i);
                if rank as u128 >= self.max_retained_checkpoints as u128 {
                    let key = checkpoint_key(
                        records.tenant_id.as_str(),
                        records.agent_id.as_str(),
                        checkpoint.seq,
                    );
                    proof {
                        lemma_texts_push(keys@, key);
                    }
                    keys.push(key);
                }
            }
            i = i + 1;
        }
    }

    fn collect_turns(&self, records: &AgentRecords, keys: &mut Vec<String>)
        ensures
            texts(final(keys)@) == texts(old(keys)@) + self.expired_turns(
                *records,
                records.turns@.len(),
            ),
    {
        let mut i: usize = 0;
        while i < records.turns.len()
            invariant
                i <= records.turns@.len(),
                texts(keys@) == texts(old(keys)@) + self.expired_turns(*records, i as nat),
            decreases records.turns@.len() - i,
        {
            let turn = &records.turns[i];
            if turn.age_days > self.conversation_turn_ttl_days as u64 && !self.is_in_retention(
                turn.age_days,
            ) {
                let key = conversation_turn_key(
                    records.tenant_id.as_str(),
                    records.agent_id.as_str(),
                    turn.id.as_str(),
                );
                proof {
                    lemma_texts_push(keys@, key);
                }
                keys.push(key);
            }
            i = i + 1;
        }
    }

    fn collect_tool_logs(&self, records: &AgentRecords, keys: &mut Vec<String>)
        ensures
            texts(final(keys)@) == texts(old(keys)@) + self.expired_tool_logs(
                *records,
                records.tool_logs@.len(),
            ),
    {
        let mut i: usize = 0;
        while i < records.tool_logs.len()
            invariant
                i <= records.tool_logs@.len(),
                texts(keys@) == texts(old(keys)@) + self.expired_tool_logs(*records, i as nat),
            decreases records.tool_logs@.len() - i,
        {
            let log = &records.tool_logs[i];
            if log.age_days > self.tool_log_ttl_days as u64 && !self.is_in_retention(log.age_days) {
                let key = tool_log_key(
                    records.tenant_id.as_str(),
                    records.agent_id.as_str(),
                    log.id.as_str(),
                );
                proof {
                    lemma_texts_push(keys@, key);
                }
                keys.push(key);
            }
            i = i + 1;
        }
    }
}

/// The contents of some strings.
pub open spec fn texts(strings: Seq<String>) -> Seq<Seq<char>> {
    strings.map_values(|s: String| s@)
}

proof fn lemma_texts_push(strings: Seq<String>, s: String)
    ensures
        texts(strings.push(s)) == texts(strings).push(s@),
{
    assert(texts(strings.push(s)) =~= texts(strings).push(s@));
}

/// Runs sweeps over a state store.
#[derive(Debug)]
pub struct GcRunner {
    store: DaprStateStore,
    config: GcConfig,
    interval_secs: u64,
}

impl GcRunner {
    /// The settings.
    pub closed spec fn settings(&self) -> GcConfig {
        self.config
    }

    /// Seconds between two sweeps.
    pub closed spec fn interval(&self) -> u64 {
        self.interval_secs
    }

    /// Name of the state store.
    pub closed spec fn store_name(&self) -> Seq<char> {
        self.store.name()
    }

    /// A runner on `store`.
    pub fn new(store: DaprStateStore, config: GcConfig) -> (runner: Self)
        ensures
            runner.settings() == config,
            runner.interval() == GC_INTERVAL_SECS,
            runner.store_name() == store.name(),
    {
        GcRunner { store, config, interval_secs: GC_INTERVAL_SECS }
    }

    /// The state store.
    pub fn store(&self) -> (store: &DaprStateStore)
        ensures
            store.name() == self.store_name(),
    {
        &self.store
    }

    /// The settings.
    pub fn config(&self) -> (config: GcConfig)
        ensures
            config == self.settings(),
    {
        self.config
    }

    /// Seconds between two sweeps.
    pub fn interval_secs(&self) -> (secs: u64)
        ensures
            secs == self.interval(),
    {
        self.interval_secs
    }

    /// Sweeps the records of one agent: which keys to delete. Ids that may not stand in a key are
    /// refused.
    pub fn sweep(&self, records: &AgentRecords) -> (result: StateResult<Vec<String>>)
        ensures
            result is Ok <==> valid_id(records.tenant_id@) && valid_id(records.agent_id@),
            result matches Ok(keys) ==> texts(keys@) == self.settings().expired_keys(*records),
            result matches Err(e) ==> e matches StateError::InvalidInput(reason) && reason@ == (
            if !valid_id(records.tenant_id@) {
                id_complaint(records.tenant_id@, "tenant_id"@)
            } else {
                id_complaint(records.agent_id@, "agent_id"@)
            }),
    {
        if let Err(e) = DaprStateStore::validate_id(records.tenant_id.as_str(), "tenant_id") {
            return Err(e);
        }
        if let Err(e) = DaprStateStore::validate_id(records.agent_id.as_str(), "agent_id") {
            return Err(e);
        }
        let mut keys: Vec<String> = Vec::new();
        if let Some(age) = records.memory_age_secs {
            if age > WORKING_MEMORY_TTL_SECS && !self.config.is_in_retention(age / SECS_PER_DAY) {
                let key = working_memory_key(
                    records.tenant_id.as_str(),
                    records.agent_id.as_str(),
                );
                keys.push(key);
            }
        }
        assert(texts(keys@) =~= self.config.expired_memory(*records));
        self.config.collect_checkpoints(records, &mut keys);
        self.config.collect_turns(records, &mut keys);
        self.config.collect_tool_logs(records, &mut keys);
        Ok(keys)
    }
}

/// What an erasure of a tenant's data deletes.
#[derive(Debug)]
pub struct ErasureReport {
    pub tenant_id: String,
    pub agents_deleted: u64,
    /// State records and working memory records.
    pub state_records_deleted: u64,
    pub turn_records_deleted: u64,
    pub tool_log_records_deleted: u64,
    pub checkpoint_records_deleted: u64,
    /// Always zero: erasure does not wait for the end of a compliance window.
    pub checkpoint_records_pending_compliance_hold: u64,
    pub lancedb_entries_deleted: u64,
}

/// An erasure: the keys to delete, and what they are.
#[derive(Debug)]
pub struct Erasure {
    pub keys: Vec<String>,
    pub report: ErasureReport,
}

/// How many records of each sort there are.
pub struct RecordCounts {
    pub agents: nat,
    pub state: nat,
    pub turns: nat,
    pub tool_logs: nat,
    pub checkpoints: nat,
}

impl RecordCounts {
    /// All records together.
    pub open spec fn total(&self) -> nat {
        self.state + self.turns + self.tool_logs + self.checkpoints
    }
}

impl AgentRecords {
    /// The key of a record of this agent.
    pub open spec fn key_of(&self, name: RecordName) -> Seq<char> {
        record_key(self.tenant_id@, self.agent_id@, name)
    }

    /// The keys of the state record and the working memory record.
    pub open spec fn state_keys(&self) -> Seq<Seq<char>> {
        let state = if self.has_state {
            seq![self.key_of(RecordName::State)]
        } else {
            seq![]
        };
        if self.has_memory {
            state.push(self.key_of(RecordName::WorkingMemory))
        } else {
            state
        }
    }

    /// The keys of the first `n` checkpoints.
    pub open spec fn checkpoint_keys(&self, n: nat) -> Seq<Seq<char>> {
        Seq::new(n, |i: int| self.key_of(RecordName::Checkpoint(self.checkpoints@[i].seq)))
    }

    /// The keys of the first `n` conversation turns.
    pub open spec fn turn_keys(&self, n: nat) -> Seq<Seq<char>> {
        Seq::new(n, |i: int| self.key_of(RecordName::ConversationTurn(self.turns@[i].id@)))
    }

    /// The keys of the first `n` logs of tool calls.
    pub open spec fn tool_log_keys(&self, n: nat) -> Seq<Seq<char>> {
        Seq::new(n, |i: int| self.key_of(RecordName::ToolLog(self.tool_logs@[i].id@)))
    }

    /// All keys of the agent.
    pub open spec fn all_keys(&self) -> Seq<Seq<char>> {
        self.state_keys() + self.checkpoint_keys(self.checkpoints@.len()) + self.turn_keys(
            self.turns@.len(),
        ) + self.tool_log_keys(self.tool_logs@.len())
    }

    fn collect_all(&self, keys: &mut Vec<String>)
        ensures
            texts(final(keys)@) == texts(old(keys)@) + self.all_keys(),
    {
        let ghost start = texts(keys@);
        if self.has_state {
            let key = agent_state_key(self.tenant_id.as_str(), self.agent_id.as_str());
            proof {
                lemma_texts_push(keys@, key);
            }
            keys.push(key);
        }
        if self.has_memory {
            let key = working_memory_key(self.tenant_id.as_str(), self.agent_id.as_str());
            proof {
                lemma_texts_push(keys@, key);
            }
            keys.push(key);
        }
        let ghost with_state = start + self.state_keys();
        assert(texts(keys@) =~= with_state);
        let mut i: usize = 0;
        while i < self.checkpoints.len()
            invariant
                i <= self.checkpoints@.len(),
                texts(keys@) == with_state + self.checkpoint_keys(i as nat),
            decreases self.checkpoints@.len() - i,
        {
            let key = checkpoint_key(
                self.tenant_id.as_str(),
                self.agent_id.as_str(),
                self.checkpoints[i].seq,
            );
            proof {
                lemma_texts_push(keys@, key);
                assert(self.checkpoint_keys(i as nat + 1) =~= self.checkpoint_keys(i as nat).push(
                    key@,
                ));
            }
            keys.push(key);
            i = i + 1;
        }
        let ghost with_checkpoints = with_state + self.checkpoint_keys(self.checkpoints@.len());
        let mut i: usize = 0;
        while i < self.turns.len()
            invariant
                i <= self.turns@.len(),
                texts(keys@) == with_checkpoints + self.turn_keys(i as nat),
            decreases self.turns@.len() - i,
        {
            let key = conversation_turn_key(
                self.tenant_id.as_str(),
                self.agent_id.as_str(),
                self.turns[i].id.as_str(),
            );
            proof {
                lemma_texts_push(keys@, key);
                assert(self.turn_keys(i as nat + 1) =~= self.turn_keys(i as nat).push(key@));
            }
            keys.push(key);
            i = i + 1;
        }
        let ghost with_turns = with_checkpoints + self.turn_keys(self.turns@.len());
        let mut i: usize = 0;
        while i < self.tool_logs.len()
            invariant
                i <= self.tool_logs@.len(),
                texts(keys@) == with_turns + self.tool_log_keys(i as nat),
            decreases self.tool_logs@.len() - i,
        {
            let key = tool_log_key(
                self.tenant_id.as_str(),
                self.agent_id.as_str(),
                self.tool_logs[i].id.as_str(),
            );
            proof {
                lemma_texts_push(keys@, key);
                assert(self.tool_log_keys(i as nat + 1) =~= self.tool_log_keys(i as nat).push(key@));
            }
            keys.push(key);
            i = i + 1;
        }
        assert(texts(keys@) =~= start + self.all_keys());
    }
}

/// The keys of a tenant among the records of the first `n` agents.
pub open spec fn erased_keys(tenant_id: Seq<char>, agents: Seq<AgentRecords>, n: nat) -> Seq<
    Seq<char>,
>
    decreases n,
{
    if n == 0 {
        seq![]
    } else {
        let before = erased_keys(tenant_id, agents, (n - 1) as nat);
        if agents[n - 1].tenant_id@ == tenant_id {
            before + agents[n - 1].all_keys()
        } else {
            before
        }
    }
}

/// How many records of a tenant there are among those of the first `n` agents.
pub open spec fn erased_counts(
    tenant_id: Seq<char>,
    agents: Seq<AgentRecords>,
    n: nat,
) -> RecordCounts
    decreases n,
{
    if n == 0 {
        RecordCounts { agents: 0, state: 0, turns: 0, tool_logs: 0, checkpoints: 0 }
    } else {
        let before = erased_counts(tenant_id, agents, (n - 1) as nat);
        let last = agents[n - 1];
        if last.tenant_id@ == tenant_id {
            RecordCounts {
                agents: before.agents + 1,
                state: before.state + last.state_keys().len(),
                turns: before.turns + last.turns@.len(),
                tool_logs: before.tool_logs + last.tool_logs@.len(),
                checkpoints: before.checkpoints + last.checkpoints@.len(),
            }
        } else {
            before
        }
    }
}

/// Whether the agents of a tenant among the first `n` have ids that may stand in a key.
pub open spec fn has_valid_agents(
    tenant_id: Seq<char>,
    agents: Seq<AgentRecords>,
    n: nat,
) -> bool {
    forall|i: int|
        0 <= i < n && (#[trigger] agents[i]).tenant_id@ == tenant_id ==> valid_id(
            agents[i].agent_id@,
        )
}

/// What an erasure answers.
pub open spec fn erasure_answer(
    tenant_id: Seq<char>,
    agents: Seq<AgentRecords>,
    lancedb_entries: u64,
    result: StateResult<Erasure>,
) -> bool {
    if !valid_id(tenant_id) {
        result matches Err(StateError::InvalidInput(reason)) && reason@ == id_complaint(
            tenant_id,
            "tenant_id"@,
        )
    } else if !has_valid_agents(tenant_id, agents, agents.len()) {
        result matches Err(StateError::InvalidInput(reason)) && exists|i: int|
            #[trigger] is_first_bad_agent(tenant_id, agents, i) && reason@ == id_complaint(
                agents[i].agent_id@,
                "agent_id"@,
            )
    } else {
        result matches Ok(erasure) && texts(erasure.keys@) == erased_keys(
            tenant_id,
            agents,
            agents.len(),
        ) && is_report(
            tenant_id,
            erased_counts(tenant_id, agents, agents.len()),
            lancedb_entries,
            erasure.report,
        )
    }
}

/// Whether agent `i` is the first of a tenant with an id that may not stand in a key.
pub open spec fn is_first_bad_agent(
    tenant_id: Seq<char>,
    agents: Seq<AgentRecords>,
    i: int,
) -> bool {
    &&& 0 <= i < agents.len()
    &&& agents[i].tenant_id@ == tenant_id
    &&& !valid_id(agents[i].agent_id@)
    &&& has_valid_agents(tenant_id, agents, i as nat)
}

/// Whether a report gives these counts.
pub open spec fn is_report(
    tenant_id: Seq<char>,
    counts: RecordCounts,
    lancedb_entries: u64,
    report: ErasureReport,
) -> bool {
    &&& report.tenant_id@ == tenant_id
    &&& report.agents_deleted == counts.agents
    &&& report.state_records_deleted == counts.state
    &&& report.turn_records_deleted == counts.turns
    &&& report.tool_log_records_deleted == counts.tool_logs
    &&& report.checkpoint_records_deleted == counts.checkpoints
    &&& report.checkpoint_records_pending_compliance_hold == 0
    &&& report.lancedb_entries_deleted == lancedb_entries
}

/// Every key counts as one record.
proof fn lemma_counts_are_of_keys(tenant_id: Seq<char>, agents: Seq<AgentRecords>, n: nat)
    ensures
        erased_counts(tenant_id, agents, n).total() == erased_keys(tenant_id, agents, n).len(),
        erased_counts(tenant_id, agents, n).agents <= n,
    decreases n,
{
    if n > 0 {
        lemma_counts_are_of_keys(tenant_id, agents, (n - 1) as nat);
    }
}

impl GcRunner {
    /// Erases a tenant: all keys of the tenant among the given records, and what they are.
    /// `lancedb_entries` is the number of its memory entries. Records of other tenants are passed
    /// over. Nothing is kept for compliance. Ids that may not stand in a key are refused.
    pub fn erase_tenant(
        &self,
        tenant_id: &str,
        agents: &Vec<AgentRecords>,
        lancedb_entries: u64,
    ) -> (result: StateResult<Erasure>)
        ensures
            erasure_answer(tenant_id@, agents@, lancedb_entries, result),
    {
        if let Err(e) = DaprStateStore::validate_id(tenant_id, "tenant_id") {
            return Err(e);
        }
        let tenant = tenant_id.to_owned();
        let mut keys: Vec<String> = Vec::new();
        let mut report = ErasureReport {
            tenant_id: tenant_id.to_owned(),
            agents_deleted: 0,
            state_records_deleted: 0,
            turn_records_deleted: 0,
            tool_log_records_deleted: 0,
            checkpoint_records_deleted: 0,
            checkpoint_records_pending_compliance_hold: 0,
            lancedb_entries_deleted: lancedb_entries,
        };
        assert(texts(keys@) =~= erased_keys(tenant_id@, agents@, 0));
        let mut i: usize = 0;
        while i < agents.len()
            invariant
                i <= agents@.len(),
                valid_id(tenant_id@),
                tenant@ == tenant_id@,
                has_valid_agents(tenant_id@, agents@, i as nat),
                texts(keys@) == erased_keys(tenant_id@, agents@, i as nat),
                is_report(
                    tenant_id@,
                    erased_counts(tenant_id@, agents@, i as nat),
                    lancedb_entries,
                    report,
                ),
            decreases agents@.len() - i,
        {
            let agent = &agents[i];
            if agent.tenant_id == tenant {
                if let Err(e) = DaprStateStore::validate_id(agent.agent_id.as_str(), "agent_id") {
                    assert(is_first_bad_agent(tenant_id@, agents@, i as int));
                    return Err(e);
                }
                agent.collect_all(&mut keys);
                let total = keys.len();
                proof {
                    assert(texts(keys@) =~= erased_keys(tenant_id@, agents@, i as nat + 1));
                    lemma_counts_are_of_keys(tenant_id@, agents@, i as nat + 1);
                    assert(texts(keys@).len() == total);
                }
                report.agents_deleted = report.agents_deleted + 1;
                if agent.has_state {
                    report.state_records_deleted = report.state_records_deleted + 1;
                }
                if agent.has_memory {
                    report.state_records_deleted = report.state_records_deleted + 1;
                }
                report.turn_records_deleted = report.turn_records_deleted + agent.turns.len() as u64;
                report.tool_log_records_deleted = report.tool_log_records_deleted
                    + agent.tool_logs.len() as u64;
                report.checkpoint_records_deleted = report.checkpoint_records_deleted
                    + agent.checkpoints.len() as u64;
            }
            i = i + 1;
        }
        Ok(Erasure { keys, report })
    }
}

/// Every key of an erasure is that of a record of the tenant, under an id of one of its agents.
pub proof fn law_erasure_deletes_records_of_the_tenant(
    tenant_id: Seq<char>,
    agents: Seq<AgentRecords>,
    n: nat,
    k: int,
)
    requires
        n <= agents.len(),
        0 <= k < erased_keys(tenant_id, agents, n).len(),
    ensures
        exists|i: int, name: RecordName|
            0 <= i < n && agents[i].tenant_id@ == tenant_id && erased_keys(
                tenant_id,
                agents,
                n,
            )[k] == #[trigger] agents[i].key_of(name),
    decreases n,
{
    let before = erased_keys(tenant_id, agents, (n - 1) as nat);
    let keys = erased_keys(tenant_id, agents, n);
    if k < before.len() {
        law_erasure_deletes_records_of_the_tenant(tenant_id, agents, (n - 1) as nat, k);
        let (i, name) = choose|i: int, name: RecordName|
            0 <= i < n - 1 && agents[i].tenant_id@ == tenant_id && before[k]
                == #[trigger] agents[i].key_of(name);
        assert(keys[k] == agents[i].key_of(name));
    } else {
        let last = agents[n - 1];
        let at = k - before.len();
        let a = last.state_keys().len();
        let b = a + last.checkpoints@.len();
        let c = b + last.turns@.len();
        let name = if at < a {
            if at == 0 && last.has_state {
                RecordName::State
            } else {
                RecordName::WorkingMemory
            }
        } else if at < b {
            RecordName::Checkpoint(last.checkpoints@[at - a].seq)
        } else if at < c {
            RecordName::ConversationTurn(last.turns@[at - b].id@)
        } else {
            RecordName::ToolLog(last.tool_logs@[at - c].id@)
        };
        assert(keys[k] == last.all_keys()[at]);
        assert(keys[k] == agents[n - 1].key_of(name));
    }
}

/// An erasure spares other tenants: no key in it is that of a record of another tenant, unless the
/// ids of the two straddle one another and so share their keys.
pub proof fn law_erasure_spares_other_tenants(
    tenant_id: Seq<char>,
    agents: Seq<AgentRecords>,
    k: int,
    other_tenant: Seq<char>,
    other_agent: Seq<char>,
    other_name: RecordName,
)
    requires
        valid_id(tenant_id),
        has_valid_agents(tenant_id, agents, agents.len()),
        0 <= k < erased_keys(tenant_id, agents, agents.len()).len(),
        other_tenant != tenant_id,
        valid_id(other_tenant),
        valid_id(other_agent),
        forall|i: int|
            0 <= i < agents.len() && (#[trigger] agents[i]).tenant_id@ == tenant_id ==> !straddles(
                tenant_id,
                agents[i].agent_id@,
                other_tenant,
                other_agent,
            ) && !straddles(other_tenant, other_agent, tenant_id, agents[i].agent_id@),
    ensures
        erased_keys(tenant_id, agents, agents.len())[k] != record_key(
            other_tenant,
            other_agent,
            other_name,
        ),
{
    law_erasure_deletes_records_of_the_tenant(tenant_id, agents, agents.len(), k);
    let (i, name) = choose|i: int, name: RecordName|
        0 <= i < agents.len() && agents[i].tenant_id@ == tenant_id && erased_keys(
            tenant_id,
            agents,
            agents.len(),
        )[k] == #[trigger] agents[i].key_of(name);
    law_keys_are_distinct(
        tenant_id,
        agents[i].agent_id@,
        name,
        other_tenant,
        other_agent,
        other_name,
    );
}

/// A newer checkpoint has fewer checkpoints that are newer still.
proof fn lemma_newer_has_lower_rank(
    checkpoints: Seq<StoredCheckpoint>,
    newer: int,
    older: int,
    n: nat,
)
    requires
        0 <= newer < checkpoints.len(),
        0 <= older < checkpoints.len(),
        n <= checkpoints.len(),
        is_newer(checkpoints, newer, older),
    ensures
        newer_count(checkpoints, newer, n) + (if newer < n {
            1nat
        } else {
            0
        }) <= newer_count(checkpoints, older, n),
    decreases n,
{
    if n > 0 {
        lemma_newer_has_lower_rank(checkpoints, newer, older, (n - 1) as nat);
    }
}

/// The checkpoint that no other is newer than is never deleted, unless none are to be kept.
pub proof fn law_newest_checkpoint_stays(
    config: GcConfig,
    checkpoints: Seq<StoredCheckpoint>,
    i: int,
)
    requires
        config.max_retained_checkpoints > 0,
        0 <= i < checkpoints.len(),
        forall|j: int| 0 <= j < checkpoints.len() ==> !is_newer(checkpoints, j, i),
    ensures
        config.keeps_checkpoint(checkpoints, i),
{
    lemma_no_newer(checkpoints, i, checkpoints.len());
}

proof fn lemma_no_newer(checkpoints: Seq<StoredCheckpoint>, i: int, n: nat)
    requires
        n <= checkpoints.len(),
        forall|j: int| 0 <= j < checkpoints.len() ==> !is_newer(checkpoints, j, i),
    ensures
        newer_count(checkpoints, i, n) == 0,
    decreases n,
{
    if n > 0 {
        lemma_no_newer(checkpoints, i, (n - 1) as nat);
    }
}

/// A sweep never leaves a gap: what is newer than a checkpoint that stays for its rank stays too.
pub proof fn law_newer_checkpoints_stay(
    config: GcConfig,
    checkpoints: Seq<StoredCheckpoint>,
    newer: int,
    older: int,
)
    requires
        0 <= newer < checkpoints.len(),
        0 <= older < checkpoints.len(),
        is_newer(checkpoints, newer, older),
        !config.protects(checkpoints[older]),
        config.keeps_checkpoint(checkpoints, older),
    ensures
        config.keeps_checkpoint(checkpoints, newer),
{
    lemma_newer_has_lower_rank(checkpoints, newer, older, checkpoints.len());
}

/// Of the checkpoints that nothing protects, a sweep leaves no more than the configured number.
pub proof fn law_retention_is_bounded(
    config: GcConfig,
    checkpoints: Seq<StoredCheckpoint>,
    kept: Set<int>,
)
    requires
        forall|i: int| #[trigger]
            kept.contains(i) ==> 0 <= i < checkpoints.len() && !config.protects(checkpoints[i])
                && config.keeps_checkpoint(checkpoints, i),
    ensures
        kept.finite(),
        kept.len() <= config.max_retained_checkpoints,
{
    let n = checkpoints.len();
    let rank = |i: int| newer_count(checkpoints, i, n) as int;
    let limit = config.max_retained_checkpoints as int;
    vstd::set_lib::lemma_int_range(0, n as int);
    assert(kept.subset_of(vstd::set_lib::set_int_range(0, n as int)));
    vstd::set_lib::lemma_len_subset(kept, vstd::set_lib::set_int_range(0, n as int));
    assert forall|i: int, j: int|
        kept.contains(i) && kept.contains(j) && #[trigger] rank(i) == #[trigger] rank(j) implies i
        == j by {
        if i != j {
            if is_newer(checkpoints, i, j) {
                lemma_newer_has_lower_rank(checkpoints, i, j, n);
            } else {
                lemma_newer_has_lower_rank(checkpoints, j, i, n);
            }
        }
    }
    let ranks = kept.map(rank);
    vstd::set_lib::lemma_map_size(kept, ranks, rank);
    vstd::set_lib::lemma_int_range(0, limit);
    assert(ranks.subset_of(vstd::set_lib::set_int_range(0, limit)));
    vstd::set_lib::lemma_len_subset(ranks, vstd::set_lib::set_int_range(0, limit));
}

/// Nothing that has to be kept for compliance is deleted.
pub proof fn law_compliance_window_is_respected(
    config: GcConfig,
    checkpoints: Seq<StoredCheckpoint>,
    i: int,
    ttl_days: u32,
    age_days: u64,
)
    requires
        config.in_retention(age_days),
        0 <= i < checkpoints.len(),
        checkpoints[i].age_days == age_days,
    ensures
        config.keeps_checkpoint(checkpoints, i),
        config.keeps_entry(ttl_days, age_days),
        forall|age_secs: u64|
            age_secs / SECS_PER_DAY == age_days ==> #[trigger] config.keeps_memory(age_secs),
{
}

/// The checkpoints that are newer than checkpoint `i`.
pub open spec fn newer_than(checkpoints: Seq<StoredCheckpoint>, i: int) -> Set<int> {
    Set::new(
        |j: int|
            0 <= j < checkpoints.len() && (checkpoints[j].seq > checkpoints[i].seq || (
            checkpoints[j].seq == checkpoints[i].seq && j < i)),
    )
}

/// Whether something of an age is past its days, and past those of compliance where there are any.
pub open spec fn is_past(age: u64, days: u32, compliance_days: u32) -> bool {
    age > days && (compliance_days == 0 || age > compliance_days)
}

/// Whether a working memory is due: written more than a day ago, for a frozen agent, and past the
/// days of compliance.
pub open spec fn memory_is_due(config: GcConfig, records: AgentRecords) -> bool {
    records.memory_age_secs matches Some(age) && age > 86400 && (config.compliance_retain_days == 0
        || age / 86400 > config.compliance_retain_days)
}

/// Whether checkpoint `i` is due: there are as many newer ones as are to be kept, it is not one
/// from before a task that stays, and it is past the days of compliance.
pub open spec fn checkpoint_is_due(
    config: GcConfig,
    checkpoints: Seq<StoredCheckpoint>,
    i: int,
) -> bool {
    &&& newer_than(checkpoints, i).len() >= config.max_retained_checkpoints
    &&& !(config.retain_pre_task_checkpoints && checkpoints[i].pre_task)
    &&& config.compliance_retain_days == 0 || checkpoints[i].age_days
        > config.compliance_retain_days
}

/// The rank of a checkpoint is the number of the newer ones.
proof fn lemma_rank_is_number_of_newer(checkpoints: Seq<StoredCheckpoint>, i: int, n: nat)
    requires
        n <= checkpoints.len(),
    ensures
        newer_than(checkpoints, i).filter(|j: int| j < n).finite(),
        newer_than(checkpoints, i).filter(|j: int| j < n).len() == newer_count(checkpoints, i, n),
    decreases n,
{
    let now = newer_than(checkpoints, i).filter(|j: int| j < n);
    if n == 0 {
        assert(now =~= Set::<int>::empty());
    } else {
        let m = (n - 1) as nat;
        lemma_rank_is_number_of_newer(checkpoints, i, m);
        let before = newer_than(checkpoints, i).filter(|j: int| j < m);
        if is_newer(checkpoints, n - 1, i) {
            assert(now =~= before.insert(n - 1));
        } else {
            assert(now =~= before);
        }
    }
}

/// A checkpoint is kept exactly as long as it is not due.
pub proof fn law_due_checkpoints_are_not_kept(
    config: GcConfig,
    checkpoints: Seq<StoredCheckpoint>,
    i: int,
)
    requires
        0 <= i < checkpoints.len(),
    ensures
        newer_than(checkpoints, i).finite(),
        config.keeps_checkpoint(checkpoints, i) <==> !checkpoint_is_due(config, checkpoints, i),
{
    let n = checkpoints.len();
    lemma_rank_is_number_of_newer(checkpoints, i, n);
    assert(newer_than(checkpoints, i).filter(|j: int| j < n) =~= newer_than(checkpoints, i));
}

/// Whether `key` is that of checkpoint `i`, which is not kept.
spec fn is_expired_checkpoint(config: GcConfig, records: AgentRecords, i: int, key: Seq<char>) -> bool {
    !config.keeps_checkpoint(records.checkpoints@, i) && key == records.key_of(
        RecordName::Checkpoint(records.checkpoints@[i].seq),
    )
}

proof fn lemma_expired_checkpoints(config: GcConfig, records: AgentRecords, n: nat, key: Seq<char>)
    requires
        n <= records.checkpoints@.len(),
    ensures
        config.expired_checkpoints(records, n).contains(key) <==> exists|i: int|
            0 <= i < n && #[trigger] is_expired_checkpoint(config, records, i, key),
    decreases n,
{
    if n > 0 {
        let m = (n - 1) as nat;
        lemma_expired_checkpoints(config, records, m, key);
        let before = config.expired_checkpoints(records, m);
        let now = config.expired_checkpoints(records, n);
        if before.contains(key) {
            assert(now[before.index_of(key)] == key);
        }
        if is_expired_checkpoint(config, records, n - 1, key) {
            assert(now[now.len() - 1] == key);
        }
        if now.contains(key) {
            let k = now.index_of(key);
            if k < before.len() {
                assert(before[k] == key);
            } else {
                assert(is_expired_checkpoint(config, records, n - 1, key));
            }
        }
    }
}

/// Whether `key` is that of conversation turn `i`, which is not kept.
spec fn is_expired_turn(config: GcConfig, records: AgentRecords, i: int, key: Seq<char>) -> bool {
    !config.keeps_entry(config.conversation_turn_ttl_days, records.turns@[i].age_days) && key == records.key_of(
        RecordName::ConversationTurn(records.turns@[i].id@),
    )
}

proof fn lemma_expired_turns(config: GcConfig, records: AgentRecords, n: nat, key: Seq<char>)
    requires
        n <= records.turns@.len(),
    ensures
        config.expired_turns(records, n).contains(key) <==> exists|i: int|
            0 <= i < n && #[trigger] is_expired_turn(config, records, i, key),
    decreases n,
{
    if n > 0 {
        let m = (n - 1) as nat;
        lemma_expired_turns(config, records, m, key);
        let before = config.expired_turns(records, m);
        let now = config.expired_turns(records, n);
        if before.contains(key) {
            assert(now[before.index_of(key)] == key);
        }
        if is_expired_turn(config, records, n - 1, key) {
            assert(now[now.len() - 1] == key);
        }
        if now.contains(key) {
            let k = now.index_of(key);
            if k < before.len() {
                assert(before[k] == key);
            } else {
                assert(is_expired_turn(config, records, n - 1, key));
            }
        }
    }
}

/// Whether `key` is that of log `i`, which is not kept.
spec fn is_expired_tool_log(config: GcConfig, records: AgentRecords, i: int, key: Seq<char>) -> bool {
    !config.keeps_entry(config.tool_log_ttl_days, records.tool_logs@[i].age_days) && key == records.key_of(
        RecordName::ToolLog(records.tool_logs@[i].id@),
    )
}

proof fn lemma_expired_tool_logs(config: GcConfig, records: AgentRecords, n: nat, key: Seq<char>)
    requires
        n <= records.tool_logs@.len(),
    ensures
        config.expired_tool_logs(records, n).contains(key) <==> exists|i: int|
            0 <= i < n && #[trigger] is_expired_tool_log(config, records, i, key),
    decreases n,
{
    if n > 0 {
        let m = (n - 1) as nat;
        lemma_expired_tool_logs(config, records, m, key);
        let before = config.expired_tool_logs(records, m);
        let now = config.expired_tool_logs(records, n);
        if before.contains(key) {
            assert(now[before.index_of(key)] == key);
        }
        if is_expired_tool_log(config, records, n - 1, key) {
            assert(now[now.len() - 1] == key);
        }
        if now.contains(key) {
            let k = now.index_of(key);
            if k < before.len() {
                assert(before[k] == key);
            } else {
                assert(is_expired_tool_log(config, records, n - 1, key));
            }
        }
    }
}

/// Whether `key` is that of a record of an agent that is due: the working memory, a checkpoint, a
/// turn past its days or a log past its days.
pub open spec fn is_due_key(config: GcConfig, records: AgentRecords, key: Seq<char>) -> bool {
    let tenant = records.tenant_id@;
    let agent = records.agent_id@;
    let compliance = config.compliance_retain_days;
    ||| memory_is_due(config, records) && key == record_key(
        tenant,
        agent,
        RecordName::WorkingMemory,
    )
    ||| exists|i: int|
        0 <= i < records.checkpoints@.len() && checkpoint_is_due(config, records.checkpoints@, i)
            && key == #[trigger] record_key(
            tenant,
            agent,
            RecordName::Checkpoint(records.checkpoints@[i].seq),
        )
    ||| exists|i: int|
        0 <= i < records.turns@.len() && is_past(
            records.turns@[i].age_days,
            config.conversation_turn_ttl_days,
            compliance,
        ) && key == #[trigger] record_key(
            tenant,
            agent,
            RecordName::ConversationTurn(records.turns@[i].id@),
        )
    ||| exists|i: int|
        0 <= i < records.tool_logs@.len() && is_past(
            records.tool_logs@[i].age_days,
            config.tool_log_ttl_days,
            compliance,
        ) && key == #[trigger] record_key(
            tenant,
            agent,
            RecordName::ToolLog(records.tool_logs@[i].id@),
        )
}

/// The keys of a sweep are those of the records that are due.
proof fn lemma_expired_keys_are_due(config: GcConfig, records: AgentRecords, key: Seq<char>)
    ensures
        config.expired_keys(records).contains(key) <==> is_due_key(config, records, key),
{
    let tenant = records.tenant_id@;
    let agent = records.agent_id@;
    let a = config.expired_memory(records);
    let b = config.expired_checkpoints(records, records.checkpoints@.len());
    let c = config.expired_turns(records, records.turns@.len());
    let d = config.expired_tool_logs(records, records.tool_logs@.len());
    let all = config.expired_keys(records);
    assert(all == a + b + c + d);
    lemma_expired_checkpoints(config, records, records.checkpoints@.len(), key);
    lemma_expired_turns(config, records, records.turns@.len(), key);
    lemma_expired_tool_logs(config, records, records.tool_logs@.len(), key);
    assert forall|i: int| 0 <= i < records.checkpoints@.len() implies (#[trigger]
    is_expired_checkpoint(config, records, i, key) <==> checkpoint_is_due(
        config,
        records.checkpoints@,
        i,
    ) && key == record_key(tenant, agent, RecordName::Checkpoint(records.checkpoints@[i].seq))) by {
        law_due_checkpoints_are_not_kept(config, records.checkpoints@, i);
    }
    if all.contains(key) {
        let k = all.index_of(key);
        if k < a.len() {
            assert(a[k] == key);
        } else if k < a.len() + b.len() {
            assert(b[k - a.len()] == key);
            let i = choose|i: int|
                0 <= i < records.checkpoints@.len() && #[trigger] is_expired_checkpoint(
                    config,
                    records,
                    i,
                    key,
                );
            assert(key == record_key(
                tenant,
                agent,
                RecordName::Checkpoint(records.checkpoints@[i].seq),
            ));
        } else if k < a.len() + b.len() + c.len() {
            assert(c[k - a.len() - b.len()] == key);
            let i = choose|i: int|
                0 <= i < records.turns@.len() && #[trigger] is_expired_turn(
                    config,
                    records,
                    i,
                    key,
                );
            assert(key == record_key(
                tenant,
                agent,
                RecordName::ConversationTurn(records.turns@[i].id@),
            ));
        } else {
            assert(d[k - a.len() - b.len() - c.len()] == key);
            let i = choose|i: int|
                0 <= i < records.tool_logs@.len() && #[trigger] is_expired_tool_log(
                    config,
                    records,
                    i,
                    key,
                );
            assert(key == record_key(
                tenant,
                agent,
                RecordName::ToolLog(records.tool_logs@[i].id@),
            ));
        }
    }
    if is_due_key(config, records, key) {
        if memory_is_due(config, records) && key == record_key(
            tenant,
            agent,
            RecordName::WorkingMemory,
        ) {
            assert(all[0] == key);
        } else if exists|i: int|
            0 <= i < records.checkpoints@.len() && #[trigger] is_expired_checkpoint(
                config,
                records,
                i,
                key,
            ) {
            assert(all[a.len() + b.index_of(key)] == key);
        } else if exists|i: int|
            0 <= i < records.turns@.len() && #[trigger] is_expired_turn(config, records, i, key) {
            assert(all[a.len() + b.len() + c.index_of(key)] == key);
        } else {
            assert forall|i: int|
                0 <= i < records.checkpoints@.len() && checkpoint_is_due(
                    config,
                    records.checkpoints@,
                    i,
                ) implies key != #[trigger] record_key(
                tenant,
                agent,
                RecordName::Checkpoint(records.checkpoints@[i].seq),
            ) by {
                assert(!is_expired_checkpoint(config, records, i, key));
            }
            assert forall|i: int|
                0 <= i < records.turns@.len() && is_past(
                    records.turns@[i].age_days,
                    config.conversation_turn_ttl_days,
                    config.compliance_retain_days,
                ) implies key != #[trigger] record_key(
                tenant,
                agent,
                RecordName::ConversationTurn(records.turns@[i].id@),
            ) by {
                assert(!is_expired_turn(config, records, i, key));
            }
            let i = choose|i: int|
                0 <= i < records.tool_logs@.len() && is_past(
                    records.tool_logs@[i].age_days,
                    config.tool_log_ttl_days,
                    config.compliance_retain_days,
                ) && key == #[trigger] record_key(
                    tenant,
                    agent,
                    RecordName::ToolLog(records.tool_logs@[i].id@),
                );
            assert(is_expired_tool_log(config, records, i, key));
            assert(all[a.len() + b.len() + c.len() + d.index_of(key)] == key);
        }
    }
}

/// A sweep deletes nothing but what is due.
pub proof fn law_sweep_deletes_only_what_is_due(
    runner: GcRunner,
    records: AgentRecords,
    keys: Vec<String>,
    k: int,
)
    requires
        call_ensures(GcRunner::sweep, (&runner, &records), Ok(keys)),
        0 <= k < keys@.len(),
    ensures
        is_due_key(runner.settings(), records, keys@[k]@),
{
    assert(texts(keys@)[k] == keys@[k]@);
    lemma_expired_keys_are_due(runner.settings(), records, keys@[k]@);
}

/// A sweep deletes all that is due.
pub proof fn law_sweep_deletes_all_that_is_due(
    runner: GcRunner,
    records: AgentRecords,
    keys: Vec<String>,
    key: Seq<char>,
)
    requires
        call_ensures(GcRunner::sweep, (&runner, &records), Ok(keys)),
        is_due_key(runner.settings(), records, key),
    ensures
        exists|k: int| 0 <= k < keys@.len() && #[trigger] keys@[k]@ == key,
{
    lemma_expired_keys_are_due(runner.settings(), records, key);
    let k = texts(keys@).index_of(key);
    assert(texts(keys@)[k] == keys@[k]@);
}

/// A sweep never deletes the state record of its agent: without it the agent could not be
/// hydrated again.
pub proof fn law_sweep_spares_the_state(
    runner: GcRunner,
    records: AgentRecords,
    keys: Vec<String>,
    k: int,
)
    requires
        call_ensures(GcRunner::sweep, (&runner, &records), Ok(keys)),
        0 <= k < keys@.len(),
    ensures
        keys@[k]@ != record_key(records.tenant_id@, records.agent_id@, RecordName::State),
{
    law_sweep_deletes_only_what_is_due(runner, records, keys, k);
    let tenant = records.tenant_id@;
    let agent = records.agent_id@;
    if keys@[k]@ == record_key(tenant, agent, RecordName::State) {
        assert forall|name: RecordName| #[trigger]
            record_key(tenant, agent, name) == record_key(tenant, agent, RecordName::State) implies
            name == RecordName::State by {
            law_key_kinds_are_distinct(tenant, agent, name, tenant, agent, RecordName::State);
        }
    }
}

/// An agent whose ids may stand in a key is swept, and another is refused.
pub proof fn law_sweep_needs_valid_ids(
    runner: GcRunner,
    records: AgentRecords,
    result: StateResult<Vec<String>>,
)
    requires
        call_ensures(GcRunner::sweep, (&runner, &records), result),
    ensures
        result is Ok <==> valid_id(records.tenant_id@) && valid_id(records.agent_id@),
{
}

/// Whether `key` is that of a record that is stored for an agent.
pub open spec fn is_stored_key(records: AgentRecords, key: Seq<char>) -> bool {
    let tenant = records.tenant_id@;
    let agent = records.agent_id@;
    ||| records.has_state && key == record_key(tenant, agent, RecordName::State)
    ||| records.has_memory && key == record_key(tenant, agent, RecordName::WorkingMemory)
    ||| exists|i: int|
        0 <= i < records.checkpoints@.len() && key == #[trigger] record_key(
            tenant,
            agent,
            RecordName::Checkpoint(records.checkpoints@[i].seq),
        )
    ||| exists|i: int|
        0 <= i < records.turns@.len() && key == #[trigger] record_key(
            tenant,
            agent,
            RecordName::ConversationTurn(records.turns@[i].id@),
        )
    ||| exists|i: int|
        0 <= i < records.tool_logs@.len() && key == #[trigger] record_key(
            tenant,
            agent,
            RecordName::ToolLog(records.tool_logs@[i].id@),
        )
}

/// The keys of an agent are those of its stored records.
proof fn lemma_all_keys_are_stored_keys(records: AgentRecords, key: Seq<char>)
    ensures
        records.all_keys().contains(key) <==> is_stored_key(records, key),
{
    let tenant = records.tenant_id@;
    let agent = records.agent_id@;
    let all = records.all_keys();
    let a = records.state_keys();
    let b = records.checkpoint_keys(records.checkpoints@.len());
    let c = records.turn_keys(records.turns@.len());
    let d = records.tool_log_keys(records.tool_logs@.len());
    if all.contains(key) {
        let k = choose|k: int| 0 <= k < all.len() && all[k] == key;
        if k < a.len() {
            assert(key == a[k]);
        } else if k < a.len() + b.len() {
            let i = k - a.len();
            assert(key == b[i]);
            assert(key == record_key(
                tenant,
                agent,
                RecordName::Checkpoint(records.checkpoints@[i].seq),
            ));
        } else if k < a.len() + b.len() + c.len() {
            let i = k - a.len() - b.len();
            assert(key == c[i]);
            assert(key == record_key(
                tenant,
                agent,
                RecordName::ConversationTurn(records.turns@[i].id@),
            ));
        } else {
            let i = k - a.len() - b.len() - c.len();
            assert(key == d[i]);
            assert(key == record_key(
                tenant,
                agent,
                RecordName::ToolLog(records.tool_logs@[i].id@),
            ));
        }
    }
    if is_stored_key(records, key) {
        if records.has_state && key == record_key(tenant, agent, RecordName::State) {
            assert(all[0] == key);
        } else if records.has_memory && key == record_key(tenant, agent, RecordName::WorkingMemory) {
            assert(all[a.len() - 1] == key);
        } else if exists|i: int|
            0 <= i < records.checkpoints@.len() && key == #[trigger] record_key(
                tenant,
                agent,
                RecordName::Checkpoint(records.checkpoints@[i].seq),
            ) {
            let i = choose|i: int|
                0 <= i < records.checkpoints@.len() && key == #[trigger] record_key(
                    tenant,
                    agent,
                    RecordName::Checkpoint(records.checkpoints@[i].seq),
                );
            assert(all[a.len() + i] == key);
        } else if exists|i: int|
            0 <= i < records.turns@.len() && key == #[trigger] record_key(
                tenant,
                agent,
                RecordName::ConversationTurn(records.turns@[i].id@),
            ) {
            let i = choose|i: int|
                0 <= i < records.turns@.len() && key == #[trigger] record_key(
                    tenant,
                    agent,
                    RecordName::ConversationTurn(records.turns@[i].id@),
                );
            assert(all[a.len() + b.len() + i] == key);
        } else {
            let i = choose|i: int|
                0 <= i < records.tool_logs@.len() && key == #[trigger] record_key(
                    tenant,
                    agent,
                    RecordName::ToolLog(records.tool_logs@[i].id@),
                );
            assert(all[a.len() + b.len() + c.len() + i] == key);
        }
    }
}

/// The erased keys are those of the stored records of the tenant's agents.
proof fn lemma_erased_keys_are_stored_keys(
    tenant_id: Seq<char>,
    agents: Seq<AgentRecords>,
    n: nat,
    key: Seq<char>,
)
    requires
        n <= agents.len(),
    ensures
        erased_keys(tenant_id, agents, n).contains(key) <==> exists|i: int|
            0 <= i < n && agents[i].tenant_id@ == tenant_id && #[trigger] is_stored_key(
                agents[i],
                key,
            ),
    decreases n,
{
    if n > 0 {
        let m = (n - 1) as nat;
        let last = agents[n - 1];
        let before = erased_keys(tenant_id, agents, m);
        let now = erased_keys(tenant_id, agents, n);
        lemma_erased_keys_are_stored_keys(tenant_id, agents, m, key);
        lemma_all_keys_are_stored_keys(last, key);
        if last.tenant_id@ == tenant_id {
            let more = last.all_keys();
            if before.contains(key) {
                assert(now[before.index_of(key)] == key);
            }
            if more.contains(key) {
                assert(now[before.len() + more.index_of(key)] == key);
            }
            if now.contains(key) {
                let k = now.index_of(key);
                if k < before.len() {
                    assert(before[k] == key);
                } else {
                    assert(more[k - before.len()] == key);
                }
            }
        }
    }
}

/// Erasure is complete: every record that is stored for an agent of the tenant is deleted, be it
/// the state, the working memory, a checkpoint, a turn or a log, whatever its age.
pub proof fn law_erasure_is_complete(
    runner: GcRunner,
    tenant_id: &str,
    agents: Vec<AgentRecords>,
    lancedb_entries: u64,
    erasure: Erasure,
    i: int,
)
    requires
        call_ensures(
            GcRunner::erase_tenant,
            (&runner, tenant_id, &agents, lancedb_entries),
            Ok(erasure),
        ),
        0 <= i < agents@.len(),
        agents@[i].tenant_id@ == tenant_id@,
    ensures
        ({
            let agent = agents@[i];
            let keys = texts(erasure.keys@);
            &&& agent.has_state ==> keys.contains(
                record_key(tenant_id@, agent.agent_id@, RecordName::State),
            )
            &&& agent.has_memory ==> keys.contains(
                record_key(tenant_id@, agent.agent_id@, RecordName::WorkingMemory),
            )
            &&& forall|c: int|
                0 <= c < agent.checkpoints@.len() ==> keys.contains(
                    #[trigger] record_key(
                        tenant_id@,
                        agent.agent_id@,
                        RecordName::Checkpoint(agent.checkpoints@[c].seq),
                    ),
                )
            &&& forall|c: int|
                0 <= c < agent.turns@.len() ==> keys.contains(
                    #[trigger] record_key(
                        tenant_id@,
                        agent.agent_id@,
                        RecordName::ConversationTurn(agent.turns@[c].id@),
                    ),
                )
            &&& forall|c: int|
                0 <= c < agent.tool_logs@.len() ==> keys.contains(
                    #[trigger] record_key(
                        tenant_id@,
                        agent.agent_id@,
                        RecordName::ToolLog(agent.tool_logs@[c].id@),
                    ),
                )
        }),
{
    let agent = agents@[i];
    let keys = texts(erasure.keys@);
    assert forall|key: Seq<char>| #[trigger] is_stored_key(agent, key) implies keys.contains(key) by {
        lemma_erased_keys_are_stored_keys(tenant_id@, agents@, agents@.len(), key);
        assert(is_stored_key(agents@[i], key));
    }
    assert forall|name: RecordName| #[trigger]
        is_stored_key(agent, record_key(tenant_id@, agent.agent_id@, name)) implies keys.contains(
        record_key(tenant_id@, agent.agent_id@, name),
    ) by {}
    assert(agent.has_state ==> is_stored_key(
        agent,
        record_key(tenant_id@, agent.agent_id@, RecordName::State),
    ));
    assert(agent.has_memory ==> is_stored_key(
        agent,
        record_key(tenant_id@, agent.agent_id@, RecordName::WorkingMemory),
    ));
    assert forall|c: int| 0 <= c < agent.checkpoints@.len() implies keys.contains(
        #[trigger] record_key(
            tenant_id@,
            agent.agent_id@,
            RecordName::Checkpoint(agent.checkpoints@[c].seq),
        ),
    ) by {
        assert(is_stored_key(
            agent,
            record_key(
                tenant_id@,
                agent.agent_id@,
                RecordName::Checkpoint(agent.checkpoints@[c].seq),
            ),
        ));
    }
    assert forall|c: int| 0 <= c < agent.turns@.len() implies keys.contains(
        #[trigger] record_key(
            tenant_id@,
            agent.agent_id@,
            RecordName::ConversationTurn(agent.turns@[c].id@),
        ),
    ) by {
        assert(is_stored_key(
            agent,
            record_key(
                tenant_id@,
                agent.agent_id@,
                RecordName::ConversationTurn(agent.turns@[c].id@),
            ),
        ));
    }
    assert forall|c: int| 0 <= c < agent.tool_logs@.len() implies keys.contains(
        #[trigger] record_key(
            tenant_id@,
            agent.agent_id@,
            RecordName::ToolLog(agent.tool_logs@[c].id@),
        ),
    ) by {
        assert(is_stored_key(
            agent,
            record_key(
                tenant_id@,
                agent.agent_id@,
                RecordName::ToolLog(agent.tool_logs@[c].id@),
            ),
        ));
    }
}

/// Erasure deletes nothing but stored records of the tenant.
pub proof fn law_erasure_deletes_only_stored_records(
    runner: GcRunner,
    tenant_id: &str,
    agents: Vec<AgentRecords>,
    lancedb_entries: u64,
    erasure: Erasure,
    k: int,
)
    requires
        call_ensures(
            GcRunner::erase_tenant,
            (&runner, tenant_id, &agents, lancedb_entries),
            Ok(erasure),
        ),
        0 <= k < erasure.keys@.len(),
    ensures
        exists|i: int|
            0 <= i < agents@.len() && agents@[i].tenant_id@ == tenant_id@ && #[trigger] is_stored_key(
                agents@[i],
                erasure.keys@[k]@,
            ),
{
    let key = erasure.keys@[k]@;
    assert(texts(erasure.keys@)[k] == key);
    lemma_erased_keys_are_stored_keys(tenant_id@, agents@, agents@.len(), key);
}

/// One where something is there.
pub open spec fn one_if(there: bool) -> nat {
    if there {
        1
    } else {
        0
    }
}

/// The sum of a number over the agents of a tenant among the first `n`.
pub open spec fn sum_over(
    tenant_id: Seq<char>,
    agents: Seq<AgentRecords>,
    n: nat,
    number: spec_fn(AgentRecords) -> nat,
) -> nat
    decreases n,
{
    if n == 0 {
        0
    } else {
        sum_over(tenant_id, agents, (n - 1) as nat, number) + if agents[n - 1].tenant_id@
            == tenant_id {
            number(agents[n - 1])
        } else {
            0
        }
    }
}

proof fn lemma_counts_are_sums(tenant_id: Seq<char>, agents: Seq<AgentRecords>, n: nat)
    ensures
        ({
            let counts = erased_counts(tenant_id, agents, n);
            &&& counts.agents == sum_over(tenant_id, agents, n, |a: AgentRecords| 1nat)
            &&& counts.state == sum_over(
                tenant_id,
                agents,
                n,
                |a: AgentRecords| one_if(a.has_state) + one_if(a.has_memory),
            )
            &&& counts.turns == sum_over(
                tenant_id,
                agents,
                n,
                |a: AgentRecords| a.turns@.len(),
            )
            &&& counts.tool_logs == sum_over(
                tenant_id,
                agents,
                n,
                |a: AgentRecords| a.tool_logs@.len(),
            )
            &&& counts.checkpoints == sum_over(
                tenant_id,
                agents,
                n,
                |a: AgentRecords| a.checkpoints@.len(),
            )
        }),
    decreases n,
{
    if n > 0 {
        lemma_counts_are_sums(tenant_id, agents, (n - 1) as nat);
    }
}

/// The report of an erasure says how many records of each sort the tenant had, and there are as
/// many keys as records. Nothing waits for the end of a compliance window.
pub proof fn law_erasure_report_is_right(
    runner: GcRunner,
    tenant_id: &str,
    agents: Vec<AgentRecords>,
    lancedb_entries: u64,
    erasure: Erasure,
)
    requires
        call_ensures(
            GcRunner::erase_tenant,
            (&runner, tenant_id, &agents, lancedb_entries),
            Ok(erasure),
        ),
    ensures
        ({
            let n = agents@.len();
            let report = erasure.report;
            &&& report.tenant_id@ == tenant_id@
            &&& report.agents_deleted == sum_over(
                tenant_id@,
                agents@,
                n,
                |a: AgentRecords| 1nat,
            )
            &&& report.state_records_deleted == sum_over(
                tenant_id@,
                agents@,
                n,
                |a: AgentRecords| one_if(a.has_state) + one_if(a.has_memory),
            )
            &&& report.turn_records_deleted == sum_over(
                tenant_id@,
                agents@,
                n,
                |a: AgentRecords| a.turns@.len(),
            )
            &&& report.tool_log_records_deleted == sum_over(
                tenant_id@,
                agents@,
                n,
                |a: AgentRecords| a.tool_logs@.len(),
            )
            &&& report.checkpoint_records_deleted == sum_over(
                tenant_id@,
                agents@,
                n,
                |a: AgentRecords| a.checkpoints@.len(),
            )
            &&& report.checkpoint_records_pending_compliance_hold == 0
            &&& report.lancedb_entries_deleted == lancedb_entries
            &&& erasure.keys@.len() == report.state_records_deleted + report.turn_records_deleted
                + report.tool_log_records_deleted + report.checkpoint_records_deleted
        }),
{
    lemma_counts_are_sums(tenant_id@, agents@, agents@.len());
    lemma_counts_are_of_keys(tenant_id@, agents@, agents@.len());
    assert(texts(erasure.keys@).len() == erasure.keys@.len());
}

/// A tenant is erased unless its id, or that of one of its agents, may not stand in a key.
pub proof fn law_erasure_needs_valid_ids(
    runner: GcRunner,
    tenant_id: &str,
    agents: Vec<AgentRecords>,
    lancedb_entries: u64,
    result: StateResult<Erasure>,
)
    requires
        call_ensures(
            GcRunner::erase_tenant,
            (&runner, tenant_id, &agents, lancedb_entries),
            result,
        ),
    ensures
        result is Ok <==> valid_id(tenant_id@) && forall|i: int|
            0 <= i < agents@.len() && (#[trigger] agents@[i]).tenant_id@ == tenant_id@ ==> valid_id(
                agents@[i].agent_id@,
            ),
{
}

/// A runner sweeps every five minutes, under the settings that it was given.
pub proof fn law_runner_sweeps_every_five_minutes(
    store: DaprStateStore,
    config: GcConfig,
    runner: GcRunner,
)
    requires
        call_ensures(GcRunner::new, (store, config), runner),
    ensures
        runner.interval() == 5 * 60,
        runner.settings() == config,
        runner.store_name() == store.name(),
{
}

} // verus!
