//! Freezing: an agent's records are written back, and a checkpoint of them is kept.
//!
//! The working memory is written first, under the next version, then the state that refers to
//! that version. Where only the first of the two writes happened, the versions differ, and the
//! next hydration sees it.

#[allow(unused_imports)]
use crate::checkpoint::{checkpoint_digest, is_greatest_seq, CheckpointImage};
use crate::checkpoint::digest_of;
#[allow(unused_imports)]
use crate::clock::{is_clock_secs, is_clock_time};
use crate::clock::{current_timestamp, unix_secs};
use crate::error::{StateError, StateResult};
#[allow(unused_imports)]
use crate::hydrate::{consistent, loaded_step, memory_answer, state_answer};
#[allow(unused_imports)]
use crate::hydrate::{HydrationStep, MemoryRead, StateRead, StateStep};
#[allow(unused_imports)]
use crate::digest::sha256_of;
#[allow(unused_imports)]
use crate::keys::{
    ends_in_seq, law_checkpoint_key_shows_number, law_keys_are_distinct, law_record_keys_in_full,
    record_key, valid_id, RecordName,
};
use crate::keys::{agent_state_key, checkpoint_key, working_memory_key};
use crate::LATEST_SCHEMA_VERSION;
use crate::proto::{
    AgentLifecycleStatus, AgentStateRecord, CheckpointRecord, CheckpointTrigger, Timestamp,
    WorkingMemoryRecord,
};
#[allow(unused_imports)]
use crate::store::id_complaint;
use crate::store::{DaprStateStore, ETag, TtlPolicy};
use vstd::prelude::*;

verus! {

/// Seconds for which a working memory record is kept.
pub const WORKING_MEMORY_TTL_SECS: u64 = 86400;

/// Checkpoints that are kept per agent.
pub const MAX_RETAINED_CHECKPOINTS: u32 = 5;

/// What a freeze starts from. Content of the records is written as it is: what has to be protected
/// at rest is sealed again before.
#[derive(Debug)]
pub struct FreezeInput {
    pub tenant_id: String,
    pub agent_id: String,
    pub state: AgentStateRecord,
    pub working_memory: WorkingMemoryRecord,
    /// ETag of the state record as read during hydration.
    pub state_etag: ETag,
    /// ETag of the working memory record as read during hydration.
    pub memory_etag: ETag,
    /// What causes the checkpoint.
    pub checkpoint_trigger: CheckpointTrigger,
}

/// First write of a freeze: `input.working_memory` under `key`, guarded by `input.memory_etag`.
#[derive(Debug)]
pub struct MemoryWrite {
    pub input: FreezeInput,
    pub key: String,
    pub ttl: TtlPolicy,
}

/// Second write of a freeze: `input.state` under `key`, guarded by `input.state_etag`.
#[derive(Debug)]
pub struct StateWrite {
    pub input: FreezeInput,
    /// The working memory record as it was written.
    pub memory_bytes: Vec<u8>,
    pub key: String,
    pub ttl: TtlPolicy,
}

/// Third write of a freeze: `record` under `key`. It needs no guard: its number is greater than
/// that of every listed checkpoint, so that none of them stands under its key.
#[derive(Debug)]
pub struct CheckpointWrite {
    pub record: CheckpointRecord,
    pub key: String,
    pub ttl: TtlPolicy,
}

/// Runs freezes against a state store.
#[derive(Debug)]
pub struct AgentFreezeManager {
    store: DaprStateStore,
    max_retained_checkpoints: u32,
}

/// The working memory record that a freeze at `now` writes: the next version of `memory`.
pub open spec fn staged_memory(
    memory: WorkingMemoryRecord,
    now: Timestamp,
) -> WorkingMemoryRecord {
    WorkingMemoryRecord {
        version: (memory.version + 1) as u64,
        snapshot_at: Some(now),
        schema_version: LATEST_SCHEMA_VERSION,
        ..memory
    }
}

/// Whether `frozen` is the state record that a freeze at `now` writes for `state`: frozen, without
/// a current task, and for that version of the working memory. All else stays.
pub open spec fn is_frozen_state(
    state: AgentStateRecord,
    memory_version: u64,
    now: Timestamp,
    frozen: AgentStateRecord,
) -> bool {
    &&& frozen.status == AgentLifecycleStatus::Frozen
    &&& frozen.working_memory_version == memory_version
    &&& frozen.last_frozen_at == Some(now)
    &&& frozen.current_task_id@ == Seq::<char>::empty()
    &&& frozen.current_task_taint@ == Seq::<String>::empty()
    &&& frozen.schema_version == LATEST_SCHEMA_VERSION
    &&& frozen.last_hydrated_at == state.last_hydrated_at
    &&& frozen.encryption == state.encryption
    &&& frozen.other_fields == state.other_fields
}

/// What a freeze at `now` answers to its input.
pub open spec fn freeze_answer(
    input: FreezeInput,
    now: Timestamp,
    result: StateResult<MemoryWrite>,
) -> bool {
    let tenant = input.tenant_id@;
    let agent = input.agent_id@;
    if !valid_id(tenant) {
        result matches Err(StateError::InvalidInput(reason)) && reason@ == id_complaint(
            tenant,
            "tenant_id"@,
        )
    } else if !valid_id(agent) {
        result matches Err(StateError::InvalidInput(reason)) && reason@ == id_complaint(
            agent,
            "agent_id"@,
        )
    } else {
        &&& result matches Ok(run)
        &&& run.key@ == record_key(tenant, agent, RecordName::WorkingMemory)
        &&& run.ttl == TtlPolicy::Seconds(WORKING_MEMORY_TTL_SECS)
        &&& run.input == FreezeInput {
            working_memory: staged_memory(input.working_memory, now),
            ..input
        }
    }
}

/// What a freeze at `now` answers to the outcome of writing the working memory.
pub open spec fn memory_written_answer(
    run: MemoryWrite,
    memory_bytes: Vec<u8>,
    outcome: StateResult<ETag>,
    now: Timestamp,
    result: StateResult<StateWrite>,
) -> bool {
    match outcome {
        Err(e) => result == Err::<StateWrite, StateError>(e),
        Ok(_) => {
            &&& result matches Ok(next)
            &&& next.key@ == record_key(
                run.input.tenant_id@,
                run.input.agent_id@,
                RecordName::State,
            )
            &&& next.ttl == TtlPolicy::NoTtl
            &&& next.memory_bytes == memory_bytes
            &&& next.input == FreezeInput { state: next.input.state, ..run.input }
            &&& is_frozen_state(
                run.input.state,
                run.input.working_memory.version,
                now,
                next.input.state,
            )
        },
    }
}

/// Whether `record` is the checkpoint number `seq` of the records in `input`.
pub open spec fn is_checkpoint_of(
    input: FreezeInput,
    state_bytes: Seq<u8>,
    memory_bytes: Seq<u8>,
    seq: u64,
    created_at: Timestamp,
    record: CheckpointRecord,
) -> bool {
    &&& record.tenant_id == input.tenant_id
    &&& record.agent_id == input.agent_id
    &&& record.checkpoint_seq == seq
    &&& record.trigger == input.checkpoint_trigger
    &&& record.pre_task_id@ == Seq::<char>::empty()
    &&& record.state_snapshot == Some(input.state)
    &&& record.memory_snapshot == Some(input.working_memory)
    &&& record.sha256_digest@ == checkpoint_digest(state_bytes, memory_bytes)
    &&& record.created_at == Some(created_at)
    &&& record.schema_version == LATEST_SCHEMA_VERSION
}

/// The number of the next checkpoint at `now_secs`: the number after the greatest known one where
/// the time is not above that, or else the time.
pub open spec fn next_seq(now_secs: u64, greatest: Option<u64>) -> u64 {
    match greatest {
        Some(known) => if now_secs <= known < u64::MAX {
            (known + 1) as u64
        } else {
            now_secs
        },
        None => now_secs,
    }
}

/// What a freeze answers to the outcome of writing the state, at `now_secs`, where `greatest` is
/// what the store said of the greatest checkpoint number of the agent.
pub open spec fn state_written_answer(
    run: StateWrite,
    state_bytes: Seq<u8>,
    outcome: StateResult<ETag>,
    greatest: StateResult<Option<u64>>,
    now_secs: u64,
    created_at: Timestamp,
    result: StateResult<CheckpointWrite>,
) -> bool {
    match outcome {
        Err(e) => result == Err::<CheckpointWrite, StateError>(e),
        Ok(_) => result matches Ok(next) && is_checkpoint_write(
            run,
            state_bytes,
            seq_after(now_secs, greatest),
            created_at,
            next,
        ),
    }
}

/// The number of the next checkpoint. Where the store could not say which are in use, it is the
/// time.
pub open spec fn seq_after(now_secs: u64, greatest: StateResult<Option<u64>>) -> u64 {
    match greatest {
        Ok(known) => next_seq(now_secs, known),
        Err(_) => now_secs,
    }
}

/// Whether `next` writes the checkpoint number `seq` of the records in `run`.
pub open spec fn is_checkpoint_write(
    run: StateWrite,
    state_bytes: Seq<u8>,
    seq: u64,
    created_at: Timestamp,
    next: CheckpointWrite,
) -> bool {
    &&& next.key@ == record_key(
        run.input.tenant_id@,
        run.input.agent_id@,
        RecordName::Checkpoint(seq),
    )
    &&& next.ttl == TtlPolicy::NoTtl
    &&& is_checkpoint_of(run.input, state_bytes, run.memory_bytes@, seq, created_at, next.record)
}

impl AgentFreezeManager {
    /// Checkpoints that are kept per agent.
    pub closed spec fn retained(&self) -> u32 {
        self.max_retained_checkpoints
    }

    /// Name of the state store.
    pub closed spec fn store_name(&self) -> Seq<char> {
        self.store.name()
    }

    /// A manager on `store`.
    pub fn new(store: DaprStateStore) -> (manager: Self)
        ensures
            manager.retained() == MAX_RETAINED_CHECKPOINTS,
            manager.store_name() == store.name(),
    {
        AgentFreezeManager { store, max_retained_checkpoints: MAX_RETAINED_CHECKPOINTS }
    }

    /// The state store.
    pub fn store(&self) -> (store: &DaprStateStore)
        ensures
            store.name() == self.store_name(),
    {
        &self.store
    }

    /// Starts a freeze, at the current time: what to write as working memory.
    pub fn freeze(&self, input: FreezeInput) -> (result: StateResult<MemoryWrite>)
        requires
            input.working_memory.version < u64::MAX,
        ensures
            exists|now: Timestamp| is_clock_time(now) && #[trigger] freeze_answer(input, now, result),
    {
        let now = current_timestamp();
        let result = self.freeze_at(input, now);
        assert(freeze_answer(input, now, result));
        result
    }

    /// Starts a freeze at `now`: what to write as working memory. Ids that may not stand in a
    /// key are refused.
    pub fn freeze_at(&self, input: FreezeInput, now: Timestamp) -> (result: StateResult<
        MemoryWrite,
    >)
        requires
            input.working_memory.version < u64::MAX,
        ensures
            freeze_answer(input, now, result),
    {
        if let Err(e) = DaprStateStore::validate_id(input.tenant_id.as_str(), "tenant_id") {
            return Err(e);
        }
        if let Err(e) = DaprStateStore::validate_id(input.agent_id.as_str(), "agent_id") {
            return Err(e);
        }
        let key = working_memory_key(input.tenant_id.as_str(), input.agent_id.as_str());
        let mut input = input;
        input.working_memory.version = input.working_memory.version + 1;
        input.working_memory.snapshot_at = Some(now);
        input.working_memory.schema_version = LATEST_SCHEMA_VERSION;
        Ok(MemoryWrite { input, key, ttl: TtlPolicy::Seconds(WORKING_MEMORY_TTL_SECS) })
    }

    /// Takes the outcome of writing the working memory, at the current time: what to write as
    /// state.
    pub fn memory_written(
        &self,
        run: MemoryWrite,
        memory_bytes: Vec<u8>,
        outcome: StateResult<ETag>,
    ) -> (result: StateResult<StateWrite>)
        ensures
            exists|now: Timestamp|
                is_clock_time(now) && #[trigger] memory_written_answer(
                    run,
                    memory_bytes,
                    outcome,
                    now,
                    result,
                ),
    {
        let now = current_timestamp();
        let result = self.memory_written_at(run, memory_bytes, outcome, now);
        assert(memory_written_answer(run, memory_bytes, outcome, now, result));
        result
    }

    /// Takes the outcome of writing the working memory as `memory_bytes`: what to write as state
    /// at `now`.
    pub fn memory_written_at(
        &self,
        run: MemoryWrite,
        memory_bytes: Vec<u8>,
        outcome: StateResult<ETag>,
        now: Timestamp,
    ) -> (result: StateResult<StateWrite>)
        ensures
            memory_written_answer(run, memory_bytes, outcome, now, result),
    {
        if let Err(e) = outcome {
            return Err(e);
        }
        let mut input = run.input;
        let key = agent_state_key(input.tenant_id.as_str(), input.agent_id.as_str());
        input.state.working_memory_version = input.working_memory.version;
        input.state.status = AgentLifecycleStatus::Frozen;
        input.state.last_frozen_at = Some(now);
        input.state.current_task_id = String::new();
        input.state.current_task_taint = Vec::new();
        input.state.schema_version = LATEST_SCHEMA_VERSION;
        Ok(StateWrite { input, memory_bytes, key, ttl: TtlPolicy::NoTtl })
    }

    /// Takes the outcome of writing the state, at the current time: what to write as checkpoint.
    /// `greatest` is the greatest number of the agent's stored checkpoints.
    pub fn state_written(
        &self,
        run: StateWrite,
        state_bytes: Vec<u8>,
        outcome: StateResult<ETag>,
        greatest: StateResult<Option<u64>>,
    ) -> (result: StateResult<CheckpointWrite>)
        ensures
            exists|now_secs: u64, created_at: Timestamp|
                is_clock_secs(now_secs) && is_clock_time(created_at)
                    && #[trigger] state_written_answer(
                    run,
                    state_bytes@,
                    outcome,
                    greatest,
                    now_secs,
                    created_at,
                    result,
                ),
    {
        let now_secs = unix_secs();
        let created_at = current_timestamp();
        let result = self.state_written_at(
            run,
            state_bytes,
            outcome,
            greatest,
            now_secs,
            created_at,
        );
        assert(state_written_answer(
            run,
            state_bytes@,
            outcome,
            greatest,
            now_secs,
            created_at,
            result,
        ));
        result
    }

    /// Takes the outcome of writing the state as `state_bytes`, at `now_secs`: what to write as
    /// checkpoint. It is numbered by the time, or by the number after `greatest` where the time is
    /// not above that.
    pub fn state_written_at(
        &self,
        run: StateWrite,
        state_bytes: Vec<u8>,
        outcome: StateResult<ETag>,
        greatest: StateResult<Option<u64>>,
        now_secs: u64,
        created_at: Timestamp,
    ) -> (result: StateResult<CheckpointWrite>)
        ensures
            state_written_answer(
                run,
                state_bytes@,
                outcome,
                greatest,
                now_secs,
                created_at,
                result,
            ),
    {
        if let Err(e) = outcome {
            return Err(e);
        }
        let known = match greatest {
            Ok(known) => known,
            Err(_) => None,
        };
        let seq = Self::next_checkpoint_seq(now_secs, known);
        Ok(Self::write_checkpoint(run.input, state_bytes, run.memory_bytes, seq, created_at))
    }

    /// The number of the next checkpoint, which is greater than `greatest` unless no number is.
    pub fn next_checkpoint_seq(now_secs: u64, greatest: Option<u64>) -> (seq: u64)
        ensures
            seq == next_seq(now_secs, greatest),
    {
        match greatest {
            Some(known) => if now_secs <= known && known < u64::MAX {
                known + 1
            } else {
                now_secs
            },
            None => now_secs,
        }
    }

    /// The checkpoint of the records in `input`, with a digest over their encodings.
    pub fn write_checkpoint(
        input: FreezeInput,
        state_bytes: Vec<u8>,
        memory_bytes: Vec<u8>,
        seq: u64,
        created_at: Timestamp,
    ) -> (write: CheckpointWrite)
        ensures
            write.key@ == record_key(
                input.tenant_id@,
                input.agent_id@,
                RecordName::Checkpoint(seq),
            ),
            write.ttl == TtlPolicy::NoTtl,
            is_checkpoint_of(
                input,
                state_bytes@,
                memory_bytes@,
                seq,
                created_at,
                write.record,
            ),
    {
        let digest = digest_of(state_bytes.as_slice(), memory_bytes.as_slice());
        let key = checkpoint_key(input.tenant_id.as_str(), input.agent_id.as_str(), seq);
        let record = CheckpointRecord {
            tenant_id: input.tenant_id,
            agent_id: input.agent_id,
            checkpoint_seq: seq,
            trigger: input.checkpoint_trigger,
            pre_task_id: String::new(),
            state_snapshot: Some(input.state),
            memory_snapshot: Some(input.working_memory),
            sha256_digest: digest,
            created_at: Some(created_at),
            schema_version: LATEST_SCHEMA_VERSION,
        };
        CheckpointWrite { record, key, ttl: TtlPolicy::NoTtl }
    }

    /// The result of a freeze: the number of the checkpoint, or zero where it could not be
    /// written. The agent is frozen either way.
    pub fn checkpoint_written(&self, seq: u64, outcome: StateResult<ETag>) -> (checkpoint_seq: u64)
        ensures
            checkpoint_seq == (if outcome is Ok {
                seq
            } else {
                0
            }),
    {
        match outcome {
            Ok(_) => seq,
            Err(_) => 0,
        }
    }
}

/// A complete freeze can be undone: hydrating what it wrote goes on with the same two records, at
/// any time, without a migration and without a checkpoint.
pub proof fn law_frozen_agent_hydrates(
    state: AgentStateRecord,
    memory: WorkingMemoryRecord,
    memory_time: Timestamp,
    state_time: Timestamp,
    frozen: AgentStateRecord,
    run: StateRead,
    steps: Map<u32, u32>,
    now_secs: u64,
    threshold: u64,
    read: StateResult<StateStep>,
    next: MemoryRead,
    result: StateResult<HydrationStep>,
)
    requires
        memory.version < u64::MAX,
        is_frozen_state(
            state,
            staged_memory(memory, memory_time).version,
            state_time,
            frozen,
        ),
        state_answer(run, Ok(Some(frozen)), steps, now_secs, threshold, read),
        read matches Ok(StateStep::Read(r)) ==> next == r,
        memory_answer(next, Ok(Some(staged_memory(memory, memory_time))), steps, result),
    ensures
        read == Ok::<StateStep, StateError>(StateStep::Read(next)),
        result == Ok::<HydrationStep, StateError>(
            loaded_step(run.agent_id, frozen, staged_memory(memory, memory_time), false),
        ),
{
}

/// A freeze that stops after its first write is noticed: the old state and the new working
/// memory lead to recovery from a checkpoint.
pub proof fn law_interrupted_freeze_is_noticed(
    run: MemoryRead,
    memory: WorkingMemoryRecord,
    now: Timestamp,
    steps: Map<u32, u32>,
    result: StateResult<HydrationStep>,
)
    requires
        memory.version < u64::MAX,
        consistent(run.state, memory),
        memory_answer(run, Ok(Some(staged_memory(memory, now))), steps, result),
    ensures
        result matches Ok(HydrationStep::Recover(recovery)) && recovery.state == run.state
            && recovery.torn_version == Some((memory.version + 1) as u64),
{
}

/// The checkpoint that a freeze writes is one that an agent can be recovered from, and it holds
/// both frozen records.
pub proof fn law_checkpoint_recovers_freeze(
    run: StateWrite,
    state_bytes: Seq<u8>,
    seq: u64,
    created_at: Timestamp,
    write: CheckpointWrite,
    image: CheckpointImage,
)
    requires
        is_checkpoint_write(run, state_bytes, seq, created_at, write),
        image.record == write.record,
        image.state_bytes@ == state_bytes,
        image.memory_bytes@ == run.memory_bytes@,
    ensures
        image.serves(run.input.tenant_id@, run.input.agent_id@),
        image.record.checkpoint_seq == seq,
        image.record.state_snapshot == Some(run.input.state),
        image.record.memory_snapshot == Some(run.input.working_memory),
{
}

/// A checkpoint does not overwrite another of its agent: where the keys of the stored checkpoints
/// were listed and a number is left, its number is greater than theirs, and its key is none of
/// them.
pub proof fn law_checkpoint_numbers_are_unique(
    now_secs: u64,
    keys: Seq<String>,
    greatest: Option<u64>,
    i: int,
    earlier: u64,
    seq: u64,
    tenant_id: Seq<char>,
    agent_id: Seq<char>,
)
    requires
        valid_id(tenant_id),
        valid_id(agent_id),
        is_greatest_seq(keys, greatest),
        0 <= i < keys.len(),
        keys[i]@ == record_key(tenant_id, agent_id, RecordName::Checkpoint(earlier)),
        greatest != Some(u64::MAX),
        seq == seq_after(now_secs, Ok(greatest)),
    ensures
        earlier < seq,
        keys[i]@ != record_key(tenant_id, agent_id, RecordName::Checkpoint(seq)),
{
    law_checkpoint_key_shows_number(tenant_id, agent_id, earlier);
    assert(ends_in_seq(keys[i]@, earlier));
    assert(tenant_id.len() != tenant_id.push('|').len());
    law_keys_are_distinct(
        tenant_id,
        agent_id,
        RecordName::Checkpoint(earlier),
        tenant_id,
        agent_id,
        RecordName::Checkpoint(seq),
    );
}

/// A freeze writes the next version of the working memory, stamped with its time and the latest
/// schema, for a day and under the ETag that was read. The rest of the record stays, and nothing
/// else of the input is touched yet.
pub proof fn law_freeze_writes_the_next_version(
    manager: AgentFreezeManager,
    input: FreezeInput,
    now: Timestamp,
    run: MemoryWrite,
)
    requires
        input.working_memory.version < u64::MAX,
        call_ensures(AgentFreezeManager::freeze_at, (&manager, input, now), Ok(run)),
    ensures
        run.key@ == input.tenant_id@ + "||"@ + input.agent_id@ + "||working_memory"@,
        run.ttl == TtlPolicy::Seconds(86400),
        run.input.working_memory.version == input.working_memory.version + 1,
        run.input.working_memory.snapshot_at == Some(now),
        run.input.working_memory.schema_version == LATEST_SCHEMA_VERSION,
        run.input.working_memory.encryption == input.working_memory.encryption,
        run.input.working_memory.other_fields == input.working_memory.other_fields,
        run.input.tenant_id == input.tenant_id,
        run.input.agent_id == input.agent_id,
        run.input.state == input.state,
        run.input.memory_etag == input.memory_etag,
        run.input.state_etag == input.state_etag,
        run.input.checkpoint_trigger == input.checkpoint_trigger,
{
    law_record_keys_in_full(input.tenant_id@, input.agent_id@, 0, Seq::empty(), Seq::empty());
}

/// An agent is frozen unless one of its ids may not stand in a key.
pub proof fn law_freeze_needs_valid_ids(
    manager: AgentFreezeManager,
    input: FreezeInput,
    now: Timestamp,
    result: StateResult<MemoryWrite>,
)
    requires
        input.working_memory.version < u64::MAX,
        call_ensures(AgentFreezeManager::freeze_at, (&manager, input, now), result),
    ensures
        result is Ok <==> valid_id(input.tenant_id@) && valid_id(input.agent_id@),
{
}

/// The state that a freeze writes is frozen, without a task, of the version of the working memory
/// that was written before it, and stamped with the time of this freeze, whatever stood there
/// before. When the agent was hydrated, its content and its other fields stay.
pub proof fn law_frozen_state_is_written(
    manager: AgentFreezeManager,
    run: MemoryWrite,
    memory_bytes: Vec<u8>,
    etag: ETag,
    now: Timestamp,
    result: StateResult<StateWrite>,
)
    requires
        call_ensures(
            AgentFreezeManager::memory_written_at,
            (&manager, run, memory_bytes, Ok(etag), now),
            result,
        ),
    ensures
        result matches Ok(next) && {
            let before = run.input.state;
            let state = next.input.state;
            &&& next.key@ == run.input.tenant_id@ + "||"@ + run.input.agent_id@ + "||state"@
            &&& next.ttl == TtlPolicy::NoTtl
            &&& next.memory_bytes == memory_bytes
            &&& state.last_frozen_at == Some(now)
            &&& state.status == AgentLifecycleStatus::Frozen
            &&& state.working_memory_version == run.input.working_memory.version
            &&& state.current_task_id@.len() == 0
            &&& state.current_task_taint@.len() == 0
            &&& state.schema_version == LATEST_SCHEMA_VERSION
            &&& state.last_hydrated_at == before.last_hydrated_at
            &&& state.encryption == before.encryption
            &&& state.other_fields == before.other_fields
            &&& next.input.working_memory == run.input.working_memory
            &&& next.input.tenant_id == run.input.tenant_id
            &&& next.input.agent_id == run.input.agent_id
            &&& next.input.state_etag == run.input.state_etag
            &&& next.input.checkpoint_trigger == run.input.checkpoint_trigger
        },
{
    law_record_keys_in_full(
        run.input.tenant_id@,
        run.input.agent_id@,
        0,
        Seq::empty(),
        Seq::empty(),
    );
}

/// Of freezes in a row the last one counts: the state that the second writes for what the first
/// wrote carries the time and the version of the second.
pub proof fn law_last_freeze_counts(
    manager: AgentFreezeManager,
    first: MemoryWrite,
    second: MemoryWrite,
    first_bytes: Vec<u8>,
    second_bytes: Vec<u8>,
    first_etag: ETag,
    second_etag: ETag,
    earlier: Timestamp,
    now: Timestamp,
    written: StateWrite,
    rewritten: StateWrite,
)
    requires
        call_ensures(
            AgentFreezeManager::memory_written_at,
            (&manager, first, first_bytes, Ok(first_etag), earlier),
            Ok(written),
        ),
        second.input.state == written.input.state,
        call_ensures(
            AgentFreezeManager::memory_written_at,
            (&manager, second, second_bytes, Ok(second_etag), now),
            Ok(rewritten),
        ),
    ensures
        written.input.state.last_frozen_at == Some(earlier),
        rewritten.input.state.last_frozen_at == Some(now),
        rewritten.input.state.working_memory_version == second.input.working_memory.version,
{
}

/// A write that fails ends the freeze with its error: without the working memory the state is
/// not written, and without the state no checkpoint.
pub proof fn law_failed_write_ends_freeze(
    manager: AgentFreezeManager,
    memory_run: MemoryWrite,
    state_run: StateWrite,
    bytes: Vec<u8>,
    e: StateError,
    greatest: StateResult<Option<u64>>,
    now: Timestamp,
    now_secs: u64,
    after_memory: StateResult<StateWrite>,
    after_state: StateResult<CheckpointWrite>,
)
    requires
        call_ensures(
            AgentFreezeManager::memory_written_at,
            (&manager, memory_run, bytes, Err(e), now),
            after_memory,
        ),
        call_ensures(
            AgentFreezeManager::state_written_at,
            (&manager, state_run, bytes, Err(e), greatest, now_secs, now),
            after_state,
        ),
    ensures
        after_memory == Err::<StateWrite, StateError>(e),
        after_state == Err::<CheckpointWrite, StateError>(e),
{
}

/// The checkpoint of a freeze holds both records as they were written, with the SHA-256 digest
/// over their encodings, state first, and is kept until it is deleted.
pub proof fn law_checkpoint_holds_both_records(
    manager: AgentFreezeManager,
    run: StateWrite,
    state_bytes: Vec<u8>,
    etag: ETag,
    greatest: StateResult<Option<u64>>,
    now_secs: u64,
    created_at: Timestamp,
    result: StateResult<CheckpointWrite>,
)
    requires
        call_ensures(
            AgentFreezeManager::state_written_at,
            (&manager, run, state_bytes, Ok(etag), greatest, now_secs, created_at),
            result,
        ),
    ensures
        result matches Ok(write) && {
            let record = write.record;
            &&& write.key@ == record_key(
                run.input.tenant_id@,
                run.input.agent_id@,
                RecordName::Checkpoint(record.checkpoint_seq),
            )
            &&& write.ttl == TtlPolicy::NoTtl
            &&& record.tenant_id == run.input.tenant_id
            &&& record.agent_id == run.input.agent_id
            &&& record.trigger == run.input.checkpoint_trigger
            &&& record.pre_task_id@.len() == 0
            &&& record.state_snapshot == Some(run.input.state)
            &&& record.memory_snapshot == Some(run.input.working_memory)
            &&& record.sha256_digest@ == sha256_of(state_bytes@ + run.memory_bytes@)
            &&& record.created_at == Some(created_at)
            &&& record.schema_version == LATEST_SCHEMA_VERSION
        },
{
}

/// A checkpoint gets the smallest number that is not before the time and is greater than all that
/// are known, or the time where there is none or nothing is known.
pub proof fn law_checkpoint_number_is_the_next(
    manager: AgentFreezeManager,
    run: StateWrite,
    state_bytes: Vec<u8>,
    etag: ETag,
    greatest: StateResult<Option<u64>>,
    now_secs: u64,
    created_at: Timestamp,
    write: CheckpointWrite,
    other: u64,
)
    requires
        call_ensures(
            AgentFreezeManager::state_written_at,
            (&manager, run, state_bytes, Ok(etag), greatest, now_secs, created_at),
            Ok(write),
        ),
    ensures
        now_secs <= write.record.checkpoint_seq,
        match greatest {
            Ok(Some(known)) => {
                &&& known < u64::MAX ==> known < write.record.checkpoint_seq
                &&& known == u64::MAX ==> write.record.checkpoint_seq == now_secs
                &&& now_secs <= other && known < other ==> write.record.checkpoint_seq <= other
            },
            _ => write.record.checkpoint_seq == now_secs,
        },
{
}

/// A freeze gives the number of its checkpoint where that was written, and zero where not.
pub proof fn law_freeze_gives_the_checkpoint_number(
    manager: AgentFreezeManager,
    seq: u64,
    outcome: StateResult<ETag>,
    given: u64,
)
    requires
        call_ensures(AgentFreezeManager::checkpoint_written, (&manager, seq, outcome), given),
    ensures
        outcome is Ok ==> given == seq,
        outcome is Err ==> given == 0,
{
}

/// A freeze is stamped with times that were read off the clock: that of the working memory when
/// it starts, that of the state when it is about to be written, and that of the checkpoint last.
/// Where the numbers in use are not known, the checkpoint is numbered by such a time.
pub proof fn law_freeze_is_stamped_by_the_clock(
    manager: AgentFreezeManager,
    input: FreezeInput,
    memory_run: MemoryWrite,
    memory_bytes: Vec<u8>,
    memory_etag: ETag,
    state_run: StateWrite,
    state_bytes: Vec<u8>,
    state_etag: ETag,
    e: StateError,
    write: CheckpointWrite,
)
    requires
        input.working_memory.version < u64::MAX,
        call_ensures(AgentFreezeManager::freeze, (&manager, input), Ok(memory_run)),
        call_ensures(
            AgentFreezeManager::memory_written,
            (&manager, memory_run, memory_bytes, Ok(memory_etag)),
            Ok(state_run),
        ),
        call_ensures(
            AgentFreezeManager::state_written,
            (&manager, state_run, state_bytes, Ok(state_etag), Err(e)),
            Ok(write),
        ),
    ensures
        memory_run.input.working_memory.snapshot_at matches Some(t) && is_clock_time(t),
        memory_run.input.working_memory.version == input.working_memory.version + 1,
        state_run.input.state.last_frozen_at matches Some(t) && is_clock_time(t),
        state_run.input.state.working_memory_version == input.working_memory.version + 1,
        write.record.created_at matches Some(t) && is_clock_time(t),
        is_clock_secs(write.record.checkpoint_seq),
        write.record.state_snapshot == Some(state_run.input.state),
        write.record.memory_snapshot == Some(memory_run.input.working_memory),
{
}

} // verus!
