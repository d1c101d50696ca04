//! Hydration: the cold start of an agent from its stored records.
//!
//! A run reads the state record and the working memory, brings both up to the latest schema, falls
//! back on a checkpoint where the two do not fit, and opens what is encrypted. Each method
//! takes what the last step gave and says what to do next; reads, migrations and keys belong to
//! the caller.

#[allow(unused_imports)]
use crate::checkpoint::{is_restored_from, CheckpointImage};
use crate::checkpoint::RecoveredAgent;
#[allow(unused_imports)]
use crate::clock::is_clock_secs;
use crate::clock::unix_secs;
#[allow(unused_imports)]
use crate::encryption::{
    aes256gcm_open, is_sealed, law_only_what_opens_is_handed_out, law_opened_content_is_plain, open_answer,
    opens_with,
};
use crate::encryption::{open_content, EncryptionKey};
use crate::error::{StateError, StateResult};
#[allow(unused_imports)]
use crate::keys::{law_record_keys_in_full, record_key, valid_id, RecordName};
use crate::keys::{agent_state_key, working_memory_key};
#[allow(unused_imports)]
use crate::migrations::{is_version_error, next_action};
use crate::migrations::{version_error, MigrationAction, MigrationRegistry};
use crate::proto::{
    AgentLifecycleStatus, AgentStateRecord, EncryptionEnvelope, EncryptionScheme,
    WorkingMemoryRecord,
};
#[allow(unused_imports)]
use crate::proto::Timestamp;
use crate::store::DaprStateStore;
#[allow(unused_imports)]
use crate::store::id_complaint;
use crate::LATEST_SCHEMA_VERSION;
use vstd::prelude::*;

verus! {

/// Seconds after which an agent that still counts as active is presumed dead.
pub const STALE_ACTIVE_THRESHOLD_SECS: u64 = 300;

/// The records of a hydrated agent.
#[derive(Debug)]
pub struct HydrationResult {
    pub state: AgentStateRecord,
    pub working_memory: WorkingMemoryRecord,
    /// Whether the records came from a checkpoint.
    pub recovered_from_checkpoint: bool,
}

/// First read of a hydration: the state record under `state_key`.
#[derive(Debug)]
pub struct StateRead {
    pub tenant_id: String,
    pub agent_id: String,
    pub state_key: String,
    pub memory_key: String,
}

/// A state record of an older schema: the registered step from version `from` has to be run on it,
/// which gives version `to`.
#[derive(Debug)]
pub struct PendingMigration {
    pub run: StateRead,
    pub state: AgentStateRecord,
    pub from: u32,
    pub to: u32,
}

/// What follows once there is a state record.
#[derive(Debug)]
pub enum StateStep {
    /// The record is of the latest schema: the working memory comes next.
    Read(MemoryRead),
    /// The record has to be migrated.
    Migrate(PendingMigration),
}

/// Second read of a hydration: the working memory record under `memory_key`.
#[derive(Debug)]
pub struct MemoryRead {
    pub tenant_id: String,
    pub agent_id: String,
    pub memory_key: String,
    pub state: AgentStateRecord,
}

/// Third read of a hydration: the checkpoints, because the working memory is missing or torn.
#[derive(Debug)]
pub struct Recovery {
    pub tenant_id: String,
    pub agent_id: String,
    pub state: AgentStateRecord,
    /// Version of the working memory record that does not fit the state, if there is one.
    pub torn_version: Option<u64>,
}

/// Where the working memory of a hydration comes from.
#[derive(Debug)]
pub enum MemorySource {
    /// From the store: it has to fit the state that was read.
    Stored(MemoryRead),
    /// From a checkpoint, together with `state`.
    Recovered { run: Recovery, state: AgentStateRecord },
}

/// A working memory record of an older schema: the registered step from version `from` has to be
/// run on it, which gives version `to`.
#[derive(Debug)]
pub struct PendingMemory {
    pub source: MemorySource,
    pub memory: WorkingMemoryRecord,
    pub from: u32,
    pub to: u32,
}

/// Records with sealed content: the keys that their envelopes name have to be fetched.
#[derive(Debug)]
pub struct SealedAgent {
    pub agent_id: String,
    pub state: AgentStateRecord,
    pub working_memory: WorkingMemoryRecord,
    pub recovered_from_checkpoint: bool,
}

/// What follows once the working memory has been looked up.
#[derive(Debug)]
pub enum HydrationStep {
    /// The agent is hydrated.
    Complete(HydrationResult),
    /// The records have to be decrypted.
    Decrypt(SealedAgent),
    /// The records have to come from a checkpoint.
    Recover(Recovery),
    /// The working memory has to be migrated.
    Migrate(PendingMemory),
}

/// Runs hydrations against a state store.
#[derive(Debug)]
pub struct AgentHydrationManager {
    store: DaprStateStore,
    stale_active_threshold_secs: u64,
}

/// Seconds since the agent was last hydrated, at `now_secs`. One that never was counts as
/// hydrated at the epoch.
pub open spec fn hydration_age(state: AgentStateRecord, now_secs: u64) -> u64 {
    let last = match state.last_hydrated_at {
        Some(t) => t.seconds as u64,
        None => 0,
    };
    if last <= now_secs {
        (now_secs - last) as u64
    } else {
        0
    }
}

/// Whether the agent is active and was hydrated less than `threshold` seconds ago.
pub open spec fn is_busy(state: AgentStateRecord, now_secs: u64, threshold: u64) -> bool {
    state.status == AgentLifecycleStatus::Active && hydration_age(state, now_secs) < threshold
}

/// Whether state and working memory were written by one freeze.
pub open spec fn consistent(state: AgentStateRecord, memory: WorkingMemoryRecord) -> bool {
    memory.version == state.working_memory_version
}

/// What a hydration answers to the state record that was read at `now_secs`, where `steps` are
/// the known migrations. A record of a newer schema is refused.
pub open spec fn state_answer(
    run: StateRead,
    fetched: StateResult<Option<AgentStateRecord>>,
    steps: Map<u32, u32>,
    now_secs: u64,
    threshold: u64,
    result: StateResult<StateStep>,
) -> bool {
    match fetched {
        Err(e) => result == Err::<StateStep, StateError>(e),
        Ok(None) => result matches Err(StateError::InvalidInput(reason)) && reason@
            == "no state record found for agent "@ + run.agent_id@ + "; must create new agent"@,
        Ok(Some(state)) => if state.schema_version > LATEST_SCHEMA_VERSION {
            result matches Err(e) && is_version_error(
                "AgentStateRecord"@,
                state.schema_version,
                e,
            )
        } else {
            version_answer(run, state, state.schema_version, steps, now_secs, threshold, result)
        },
    }
}

/// What a hydration answers to a state record of schema `version`: the next migration, the error
/// that there is none, or what comes after the last.
pub open spec fn version_answer(
    run: StateRead,
    state: AgentStateRecord,
    version: u32,
    steps: Map<u32, u32>,
    now_secs: u64,
    threshold: u64,
    result: StateResult<StateStep>,
) -> bool {
    if version >= LATEST_SCHEMA_VERSION {
        result == current_answer(run, state, now_secs, threshold)
    } else if steps.contains_key(version) {
        result == Ok::<StateStep, StateError>(
            StateStep::Migrate(
                PendingMigration { run, state, from: version, to: steps[version] },
            ),
        )
    } else {
        result matches Err(e) && is_version_error("AgentStateRecord"@, version, e)
    }
}

/// What a hydration answers to a state record of the latest schema.
pub open spec fn current_answer(
    run: StateRead,
    state: AgentStateRecord,
    now_secs: u64,
    threshold: u64,
) -> StateResult<StateStep> {
    if is_busy(state, now_secs, threshold) {
        Err(
            StateError::AgentBusy {
                tenant_id: run.tenant_id,
                agent_id: run.agent_id,
                last_hydrated_secs: hydration_age(state, now_secs),
            },
        )
    } else {
        Ok(
            StateStep::Read(
                MemoryRead {
                    tenant_id: run.tenant_id,
                    agent_id: run.agent_id,
                    memory_key: run.memory_key,
                    state,
                },
            ),
        )
    }
}

/// What a hydration answers to the outcome of a migration, at `now_secs`.
pub open spec fn migration_answer(
    pending: PendingMigration,
    migrated: StateResult<AgentStateRecord>,
    steps: Map<u32, u32>,
    now_secs: u64,
    threshold: u64,
    result: StateResult<StateStep>,
) -> bool {
    match migrated {
        Err(e) => result == Err::<StateStep, StateError>(e),
        Ok(state) => version_answer(
            pending.run,
            state,
            pending.to,
            steps,
            now_secs,
            threshold,
            result,
        ),
    }
}

/// What follows once both records are there: decryption where there is something to decrypt.
pub open spec fn loaded_step(
    agent_id: String,
    state: AgentStateRecord,
    working_memory: WorkingMemoryRecord,
    recovered_from_checkpoint: bool,
) -> HydrationStep {
    if is_sealed(state.encryption) || is_sealed(working_memory.encryption) {
        HydrationStep::Decrypt(
            SealedAgent { agent_id, state, working_memory, recovered_from_checkpoint },
        )
    } else {
        HydrationStep::Complete(
            HydrationResult { state, working_memory, recovered_from_checkpoint },
        )
    }
}

/// What a hydration answers to the working memory record that was read, where `steps` are the
/// known migrations. A record of a newer schema is refused.
pub open spec fn memory_answer(
    run: MemoryRead,
    fetched: StateResult<Option<WorkingMemoryRecord>>,
    steps: Map<u32, u32>,
    result: StateResult<HydrationStep>,
) -> bool {
    match fetched {
        Err(e) => result == Err::<HydrationStep, StateError>(e),
        Ok(None) => result == Ok::<HydrationStep, StateError>(
            HydrationStep::Recover(
                Recovery {
                    tenant_id: run.tenant_id,
                    agent_id: run.agent_id,
                    state: run.state,
                    torn_version: None,
                },
            ),
        ),
        Ok(Some(memory)) => if memory.schema_version > LATEST_SCHEMA_VERSION {
            result matches Err(e) && is_version_error(
                "WorkingMemoryRecord"@,
                memory.schema_version,
                e,
            )
        } else {
            memory_version_answer(
                MemorySource::Stored(run),
                memory,
                memory.schema_version,
                steps,
                result,
            )
        },
    }
}

/// What a hydration answers to a working memory record of schema `version`: the next migration,
/// the error that there is none, or what comes after the last.
pub open spec fn memory_version_answer(
    source: MemorySource,
    memory: WorkingMemoryRecord,
    version: u32,
    steps: Map<u32, u32>,
    result: StateResult<HydrationStep>,
) -> bool {
    if version >= LATEST_SCHEMA_VERSION {
        result == Ok::<HydrationStep, StateError>(ready_step(source, memory))
    } else if steps.contains_key(version) {
        result == Ok::<HydrationStep, StateError>(
            HydrationStep::Migrate(
                PendingMemory { source, memory, from: version, to: steps[version] },
            ),
        )
    } else {
        is_version_refusal(torn_write(source), "WorkingMemoryRecord"@, version, result)
    }
}

/// What follows a working memory record of the latest schema. A stored one has to fit the state;
/// with one from a checkpoint, the state is set to its version.
pub open spec fn ready_step(source: MemorySource, memory: WorkingMemoryRecord) -> HydrationStep {
    match source {
        MemorySource::Stored(run) => if consistent(run.state, memory) {
            loaded_step(run.agent_id, run.state, memory, false)
        } else {
            HydrationStep::Recover(
                Recovery {
                    tenant_id: run.tenant_id,
                    agent_id: run.agent_id,
                    state: run.state,
                    torn_version: Some(memory.version),
                },
            )
        },
        MemorySource::Recovered { run, state } => loaded_step(
            run.agent_id,
            AgentStateRecord { working_memory_version: memory.version, ..state },
            memory,
            true,
        ),
    }
}

/// What a hydration answers to the outcome of migrating the working memory. A step that does not
/// touch the record leaves all of it but its schema version.
pub open spec fn memory_migration_answer(
    pending: PendingMemory,
    migrated: StateResult<Option<WorkingMemoryRecord>>,
    steps: Map<u32, u32>,
    result: StateResult<HydrationStep>,
) -> bool {
    match migrated {
        Err(e) => result == Err::<HydrationStep, StateError>(
            refusal(torn_write(pending.source), e),
        ),
        Ok(Some(memory)) => memory_version_answer(
            pending.source,
            memory,
            pending.to,
            steps,
            result,
        ),
        Ok(None) => memory_version_answer(
            pending.source,
            WorkingMemoryRecord { schema_version: pending.to, ..pending.memory },
            pending.to,
            steps,
            result,
        ),
    }
}

/// The torn write that made the source of a working memory necessary, if that is why.
pub open spec fn torn_write(source: MemorySource) -> Option<StateError> {
    match source {
        MemorySource::Stored(_) => None,
        MemorySource::Recovered { run, .. } => recovery_cause(run),
    }
}

/// The torn write that made a recovery necessary. There is none where the working memory was
/// missing.
pub open spec fn recovery_cause(run: Recovery) -> Option<StateError> {
    match run.torn_version {
        Some(version) => Some(
            StateError::TornWrite {
                agent_id: run.agent_id,
                state_version: run.state.working_memory_version,
                memory_version: version,
            },
        ),
        None => None,
    }
}

/// What is reported where `e` stands in the way: the torn write behind it, if there is one.
pub open spec fn refusal(torn: Option<StateError>, e: StateError) -> StateError {
    match torn {
        Some(torn_write) => torn_write,
        None => e,
    }
}

/// Whether `result` refuses a record of a type for its schema version, or reports the torn write
/// behind it.
pub open spec fn is_version_refusal(
    torn: Option<StateError>,
    record_type: Seq<char>,
    version: u32,
    result: StateResult<HydrationStep>,
) -> bool {
    match torn {
        Some(torn_write) => result == Err::<HydrationStep, StateError>(torn_write),
        None => result matches Err(e) && is_version_error(record_type, version, e),
    }
}

/// What a hydration answers to the outcome of a recovery. Both records are taken from it; the
/// state has to be of the latest schema, and the working memory of none that is newer. A recovery
/// that failed is reported as the torn write that made it necessary, or as it is where the working
/// memory was missing.
pub open spec fn recovery_answer(
    run: Recovery,
    recovered: StateResult<RecoveredAgent>,
    steps: Map<u32, u32>,
    result: StateResult<HydrationStep>,
) -> bool {
    match recovered {
        Err(e) => result == Err::<HydrationStep, StateError>(refusal(recovery_cause(run), e)),
        Ok(found) => if found.state.schema_version != LATEST_SCHEMA_VERSION {
            is_version_refusal(
                recovery_cause(run),
                "AgentStateRecord"@,
                found.state.schema_version,
                result,
            )
        } else if found.working_memory.schema_version > LATEST_SCHEMA_VERSION {
            is_version_refusal(
                recovery_cause(run),
                "WorkingMemoryRecord"@,
                found.working_memory.schema_version,
                result,
            )
        } else {
            memory_version_answer(
                MemorySource::Recovered { run, state: found.state },
                found.working_memory,
                found.working_memory.schema_version,
                steps,
                result,
            )
        },
    }
}

/// What a hydration answers to the keys of sealed records: the records with their content opened,
/// or the first error of opening them.
pub open spec fn decryption_answer(
    run: SealedAgent,
    state_key: StateResult<EncryptionKey>,
    memory_key: StateResult<EncryptionKey>,
    result: StateResult<HydrationResult>,
) -> bool {
    exists|
        state_content: StateResult<Option<EncryptionEnvelope>>,
        memory_content: StateResult<Option<EncryptionEnvelope>>,
    |
        {
            &&& #[trigger] open_answer(
                run.state.encryption,
                run.agent_id@,
                state_key,
                state_content,
            )
            &&& #[trigger] open_answer(
                run.working_memory.encryption,
                run.agent_id@,
                memory_key,
                memory_content,
            )
            &&& result == opened_records(run, state_content, memory_content)
        }
}

/// The records of a sealed agent with their content replaced.
pub open spec fn opened_records(
    run: SealedAgent,
    state_content: StateResult<Option<EncryptionEnvelope>>,
    memory_content: StateResult<Option<EncryptionEnvelope>>,
) -> StateResult<HydrationResult> {
    match (state_content, memory_content) {
        (Err(e), _) => Err(e),
        (Ok(_), Err(e)) => Err(e),
        (Ok(state_envelope), Ok(memory_envelope)) => Ok(
            HydrationResult {
                state: AgentStateRecord { encryption: state_envelope, ..run.state },
                working_memory: WorkingMemoryRecord {
                    encryption: memory_envelope,
                    ..run.working_memory
                },
                recovered_from_checkpoint: run.recovered_from_checkpoint,
            },
        ),
    }
}

impl AgentHydrationManager {
    /// Seconds after which an active agent is presumed dead.
    pub closed spec fn threshold(&self) -> u64 {
        self.stale_active_threshold_secs
    }

    /// Name of the state store.
    pub closed spec fn store_name(&self) -> Seq<char> {
        self.store.name()
    }

    /// A manager on `store`.
    pub fn new(store: DaprStateStore) -> (manager: Self)
        ensures
            manager.threshold() == STALE_ACTIVE_THRESHOLD_SECS,
            manager.store_name() == store.name(),
    {
        AgentHydrationManager { store, stale_active_threshold_secs: STALE_ACTIVE_THRESHOLD_SECS }
    }

    /// The state store.
    pub fn store(&self) -> (store: &DaprStateStore)
        ensures
            store.name() == self.store_name(),
    {
        &self.store
    }

    /// Starts the hydration of an agent: which keys to read. Ids that may not stand in a key
    /// are refused.
    pub fn hydrate(&self, tenant_id: &str, agent_id: &str) -> (result: StateResult<StateRead>)
        ensures
            result is Ok <==> valid_id(tenant_id@) && valid_id(agent_id@),
            result matches Ok(run) ==> {
                &&& run.tenant_id@ == tenant_id@
                &&& run.agent_id@ == agent_id@
                &&& run.state_key@ == record_key(tenant_id@, agent_id@, RecordName::State)
                &&& run.memory_key@ == record_key(tenant_id@, agent_id@, RecordName::WorkingMemory)
            },
            result matches Err(e) ==> e matches StateError::InvalidInput(reason) && reason@ == (
            if !valid_id(tenant_id@) {
                id_complaint(tenant_id@, "tenant_id"@)
            } else {
                id_complaint(agent_id@, "agent_id"@)
            }),
    {
        if let Err(e) = DaprStateStore::validate_id(tenant_id, "tenant_id") {
            return Err(e);
        }
        if let Err(e) = DaprStateStore::validate_id(agent_id, "agent_id") {
            return Err(e);
        }
        Ok(
            StateRead {
                tenant_id: tenant_id.to_owned(),
                agent_id: agent_id.to_owned(),
                state_key: agent_state_key(tenant_id, agent_id),
                memory_key: working_memory_key(tenant_id, agent_id),
            },
        )
    }

    /// Takes the state record that was read, at the current time.
    pub fn state_fetched(
        &self,
        run: StateRead,
        fetched: StateResult<Option<AgentStateRecord>>,
        migrations: &MigrationRegistry,
    ) -> (result: StateResult<StateStep>)
        ensures
            exists|now_secs: u64|
                is_clock_secs(now_secs) && #[trigger] state_answer(
                    run,
                    fetched,
                    migrations.steps(),
                    now_secs,
                    self.threshold(),
                    result,
                ),
    {
        let now_secs = unix_secs();
        let result = self.state_fetched_at(run, fetched, migrations, now_secs);
        assert(state_answer(
            run,
            fetched,
            migrations.steps(),
            now_secs,
            self.threshold(),
            result,
        ));
        result
    }

    /// Takes the state record that was read at `now_secs`. A record of an older schema is migrated
    /// first, and one of a newer schema is refused. An agent that is active and was hydrated a
    /// short while ago is busy; one that has been active for longer is presumed dead and hydrated
    /// again.
    pub fn state_fetched_at(
        &self,
        run: StateRead,
        fetched: StateResult<Option<AgentStateRecord>>,
        migrations: &MigrationRegistry,
        now_secs: u64,
    ) -> (result: StateResult<StateStep>)
        ensures
            state_answer(run, fetched, migrations.steps(), now_secs, self.threshold(), result),
    {
        let state = match fetched {
            Err(e) => return Err(e),
            Ok(None) => {
                let mut reason = "no state record found for agent ".to_owned();
                reason.append(run.agent_id.as_str());
                reason.append("; must create new agent");
                return Err(StateError::InvalidInput(reason));
            },
            Ok(Some(state)) => state,
        };
        let action = migrations.apply_to_latest(state.schema_version);
        self.act_on(run, state, action, now_secs)
    }

    /// Takes the outcome of a migration, at the current time.
    pub fn state_migrated(
        &self,
        pending: PendingMigration,
        migrated: StateResult<AgentStateRecord>,
        migrations: &MigrationRegistry,
    ) -> (result: StateResult<StateStep>)
        ensures
            exists|now_secs: u64|
                is_clock_secs(now_secs) && #[trigger] migration_answer(
                    pending,
                    migrated,
                    migrations.steps(),
                    now_secs,
                    self.threshold(),
                    result,
                ),
    {
        let now_secs = unix_secs();
        let result = self.state_migrated_at(pending, migrated, migrations, now_secs);
        assert(migration_answer(
            pending,
            migrated,
            migrations.steps(),
            now_secs,
            self.threshold(),
            result,
        ));
        result
    }

    /// Takes the outcome of a migration, at `now_secs`: the next one, or what follows the last.
    pub fn state_migrated_at(
        &self,
        pending: PendingMigration,
        migrated: StateResult<AgentStateRecord>,
        migrations: &MigrationRegistry,
        now_secs: u64,
    ) -> (result: StateResult<StateStep>)
        ensures
            migration_answer(
                pending,
                migrated,
                migrations.steps(),
                now_secs,
                self.threshold(),
                result,
            ),
    {
        match migrated {
            Err(e) => Err(e),
            Ok(state) => {
                let action = migrations.step_applied(pending.to);
                self.act_on(pending.run, state, action, now_secs)
            },
        }
    }

    /// Does what the migrations ask for, or goes on with a record that needs none.
    fn act_on(
        &self,
        run: StateRead,
        state: AgentStateRecord,
        action: StateResult<MigrationAction>,
        now_secs: u64,
    ) -> (result: StateResult<StateStep>)
        ensures
            match action {
                Err(e) => result == Err::<StateStep, StateError>(e),
                Ok(MigrationAction::Migrate { from, to }) => result == Ok::<StateStep, StateError>(
                    StateStep::Migrate(PendingMigration { run, state, from, to }),
                ),
                Ok(MigrationAction::Decode) => result == current_answer(
                    run,
                    state,
                    now_secs,
                    self.threshold(),
                ),
            },
    {
        match action {
            Err(e) => Err(e),
            Ok(MigrationAction::Migrate { from, to }) => Ok(
                StateStep::Migrate(PendingMigration { run, state, from, to }),
            ),
            Ok(MigrationAction::Decode) => {
                if state.status == AgentLifecycleStatus::Active {
                    let last: u64 = match state.last_hydrated_at {
                        Some(t) => t.seconds as u64,
                        None => 0,
                    };
                    let age = now_secs.saturating_sub(last);
                    if age < self.stale_active_threshold_secs {
                        return Err(
                            StateError::AgentBusy {
                                tenant_id: run.tenant_id,
                                agent_id: run.agent_id,
                                last_hydrated_secs: age,
                            },
                        );
                    }
                }
                Ok(
                    StateStep::Read(
                        MemoryRead {
                            tenant_id: run.tenant_id,
                            agent_id: run.agent_id,
                            memory_key: run.memory_key,
                            state,
                        },
                    ),
                )
            },
        }
    }

    /// Takes the working memory record that was read. A record of an older schema is migrated
    /// first, and one of a newer schema is refused. A version that differs from the one in the
    /// state record is a torn write.
    pub fn memory_fetched(
        &self,
        run: MemoryRead,
        fetched: StateResult<Option<WorkingMemoryRecord>>,
        migrations: &MigrationRegistry,
    ) -> (result: StateResult<HydrationStep>)
        ensures
            memory_answer(run, fetched, migrations.steps(), result),
    {
        match fetched {
            Err(e) => Err(e),
            Ok(None) => Ok(
                HydrationStep::Recover(
                    Recovery {
                        tenant_id: run.tenant_id,
                        agent_id: run.agent_id,
                        state: run.state,
                        torn_version: None,
                    },
                ),
            ),
            Ok(Some(memory)) => {
                if memory.schema_version > LATEST_SCHEMA_VERSION {
                    return Err(version_error("WorkingMemoryRecord", memory.schema_version));
                }
                let version = memory.schema_version;
                Self::memory_at(MemorySource::Stored(run), memory, version, migrations)
            },
        }
    }

    /// Takes the records that the recovery from a checkpoint gave.
    pub fn memory_recovered(
        &self,
        run: Recovery,
        recovered: StateResult<RecoveredAgent>,
        migrations: &MigrationRegistry,
    ) -> (result: StateResult<HydrationStep>)
        ensures
            recovery_answer(run, recovered, migrations.steps(), result),
    {
        match recovered {
            Err(e) => Err(Self::recovery_failed(run, e)),
            Ok(found) => {
                if found.state.schema_version != LATEST_SCHEMA_VERSION {
                    let error = version_error("AgentStateRecord", found.state.schema_version);
                    return Err(Self::recovery_failed(run, error));
                }
                let version = found.working_memory.schema_version;
                if version > LATEST_SCHEMA_VERSION {
                    let error = version_error("WorkingMemoryRecord", version);
                    return Err(Self::recovery_failed(run, error));
                }
                let source = MemorySource::Recovered { run, state: found.state };
                Self::memory_at(source, found.working_memory, version, migrations)
            },
        }
    }

    /// Takes the outcome of migrating the working memory: the record that the step gave, or none
    /// where the step does not touch it.
    pub fn memory_migrated(
        &self,
        pending: PendingMemory,
        migrated: StateResult<Option<WorkingMemoryRecord>>,
        migrations: &MigrationRegistry,
    ) -> (result: StateResult<HydrationStep>)
        ensures
            memory_migration_answer(pending, migrated, migrations.steps(), result),
    {
        match migrated {
            Err(e) => Err(Self::failed(pending.source, e)),
            Ok(Some(memory)) => Self::memory_at(pending.source, memory, pending.to, migrations),
            Ok(None) => {
                let mut memory = pending.memory;
                memory.schema_version = pending.to;
                Self::memory_at(pending.source, memory, pending.to, migrations)
            },
        }
    }

    /// Goes on with a working memory record of schema `version`.
    fn memory_at(
        source: MemorySource,
        memory: WorkingMemoryRecord,
        version: u32,
        migrations: &MigrationRegistry,
    ) -> (result: StateResult<HydrationStep>)
        ensures
            memory_version_answer(source, memory, version, migrations.steps(), result),
    {
        match migrations.next_step("WorkingMemoryRecord", version) {
            Err(e) => Err(Self::failed(source, e)),
            Ok(MigrationAction::Migrate { from, to }) => Ok(
                HydrationStep::Migrate(PendingMemory { source, memory, from, to }),
            ),
            Ok(MigrationAction::Decode) => Ok(Self::ready(source, memory)),
        }
    }

    /// Goes on with a working memory record of the latest schema.
    fn ready(source: MemorySource, memory: WorkingMemoryRecord) -> (step: HydrationStep)
        ensures
            step == ready_step(source, memory),
    {
        match source {
            MemorySource::Stored(run) => {
                if memory.version != run.state.working_memory_version {
                    return HydrationStep::Recover(
                        Recovery {
                            tenant_id: run.tenant_id,
                            agent_id: run.agent_id,
                            state: run.state,
                            torn_version: Some(memory.version),
                        },
                    );
                }
                Self::loaded(run.agent_id, run.state, memory, false)
            },
            MemorySource::Recovered { run, state } => {
                let mut state = state;
                state.working_memory_version = memory.version;
                Self::loaded(run.agent_id, state, memory, true)
            },
        }
    }

    fn failed(source: MemorySource, e: StateError) -> (error: StateError)
        ensures
            error == refusal(torn_write(source), e),
    {
        match source {
            MemorySource::Stored(_) => e,
            MemorySource::Recovered { run, .. } => Self::recovery_failed(run, e),
        }
    }

    fn recovery_failed(run: Recovery, e: StateError) -> (error: StateError)
        ensures
            error == refusal(recovery_cause(run), e),
    {
        match run.torn_version {
            Some(version) => StateError::TornWrite {
                agent_id: run.agent_id,
                state_version: run.state.working_memory_version,
                memory_version: version,
            },
            None => e,
        }
    }

    /// Takes the keys of sealed records, or why they are not available. The key of a record that
    /// is not sealed is not looked at. Without its key nothing is handed out.
    pub fn keys_fetched(
        &self,
        run: SealedAgent,
        state_key: StateResult<EncryptionKey>,
        memory_key: StateResult<EncryptionKey>,
    ) -> (result: StateResult<HydrationResult>)
        ensures
            decryption_answer(run, state_key, memory_key, result),
    {
        let ghost sealed = run;
        let mut state = run.state;
        let mut working_memory = run.working_memory;
        let state_content = open_content(state.encryption, run.agent_id.as_str(), state_key);
        let memory_content = open_content(
            working_memory.encryption,
            run.agent_id.as_str(),
            memory_key,
        );
        assert(open_answer(sealed.state.encryption, sealed.agent_id@, state_key, state_content));
        assert(open_answer(
            sealed.working_memory.encryption,
            sealed.agent_id@,
            memory_key,
            memory_content,
        ));
        match state_content {
            Err(e) => Err(e),
            Ok(state_envelope) => match memory_content {
                Err(e) => Err(e),
                Ok(memory_envelope) => {
                    state.encryption = state_envelope;
                    working_memory.encryption = memory_envelope;
                    Ok(
                        HydrationResult {
                            state,
                            working_memory,
                            recovered_from_checkpoint: run.recovered_from_checkpoint,
                        },
                    )
                },
            },
        }
    }

    fn loaded(
        agent_id: String,
        state: AgentStateRecord,
        working_memory: WorkingMemoryRecord,
        recovered_from_checkpoint: bool,
    ) -> (step: HydrationStep)
        ensures
            step == loaded_step(agent_id, state, working_memory, recovered_from_checkpoint),
    {
        if sealed_content(&state.encryption) || sealed_content(&working_memory.encryption) {
            HydrationStep::Decrypt(
                SealedAgent { agent_id, state, working_memory, recovered_from_checkpoint },
            )
        } else {
            HydrationStep::Complete(
                HydrationResult { state, working_memory, recovered_from_checkpoint },
            )
        }
    }
}

fn sealed_content(envelope: &Option<EncryptionEnvelope>) -> (sealed: bool)
    ensures
        sealed == is_sealed(*envelope),
{
    match envelope {
        Some(envelope) => envelope.scheme != EncryptionScheme::Plaintext,
        None => false,
    }
}

/// The id of the key that sealed content needs.
pub open spec fn key_needed(envelope: Option<EncryptionEnvelope>) -> Option<Seq<char>> {
    if is_sealed(envelope) {
        Some(envelope->0.key_id@)
    } else {
        None
    }
}

impl SealedAgent {
    /// The id of the key for the state record, if it is sealed.
    pub fn state_key_id(&self) -> (key_id: Option<&str>)
        ensures
            match key_id {
                Some(id) => key_needed(self.state.encryption) == Some(id@),
                None => key_needed(self.state.encryption) is None,
            },
    {
        key_id_of(&self.state.encryption)
    }

    /// The id of the key for the working memory record, if it is sealed.
    pub fn memory_key_id(&self) -> (key_id: Option<&str>)
        ensures
            match key_id {
                Some(id) => key_needed(self.working_memory.encryption) == Some(id@),
                None => key_needed(self.working_memory.encryption) is None,
            },
    {
        key_id_of(&self.working_memory.encryption)
    }
}

fn key_id_of(envelope: &Option<EncryptionEnvelope>) -> (key_id: Option<&str>)
    ensures
        match key_id {
            Some(id) => key_needed(*envelope) == Some(id@),
            None => key_needed(*envelope) is None,
        },
{
    match envelope {
        Some(sealed) => if sealed.scheme != EncryptionScheme::Plaintext {
            Some(sealed.key_id.as_str())
        } else {
            None
        },
        None => None,
    }
}

/// A record of a schema from the future is refused, whatever migrations are known.
pub proof fn law_newer_schema_is_refused(
    run: StateRead,
    state: AgentStateRecord,
    steps: Map<u32, u32>,
    now_secs: u64,
    threshold: u64,
    result: StateResult<StateStep>,
)
    requires
        state_answer(run, Ok(Some(state)), steps, now_secs, threshold, result),
        state.schema_version > LATEST_SCHEMA_VERSION,
    ensures
        result matches Err(e) && is_version_error("AgentStateRecord"@, state.schema_version, e),
{
}

/// A record of an older schema goes on only by the registered migrations: the working memory is
/// not read before the last of them, and without one the record is refused.
pub proof fn law_older_schema_is_migrated(
    run: StateRead,
    state: AgentStateRecord,
    version: u32,
    steps: Map<u32, u32>,
    now_secs: u64,
    threshold: u64,
    result: StateResult<StateStep>,
    action: StateResult<MigrationAction>,
)
    requires
        version < LATEST_SCHEMA_VERSION,
        version_answer(run, state, version, steps, now_secs, threshold, result),
        next_action(steps, "AgentStateRecord"@, version, action),
    ensures
        match action {
            Ok(MigrationAction::Migrate { from, to }) => result == Ok::<StateStep, StateError>(
                StateStep::Migrate(PendingMigration { run, state, from, to }),
            ),
            _ => result matches Err(e) && is_version_error("AgentStateRecord"@, version, e),
        },
{
}

/// A working memory of an older schema goes on only by the registered migrations: it is not
/// compared with the state, opened or handed out before the last of them, and without one it is
/// refused, or the torn write is reported that made it necessary.
pub proof fn law_older_memory_is_migrated(
    source: MemorySource,
    memory: WorkingMemoryRecord,
    version: u32,
    steps: Map<u32, u32>,
    result: StateResult<HydrationStep>,
    action: StateResult<MigrationAction>,
)
    requires
        version < LATEST_SCHEMA_VERSION,
        memory_version_answer(source, memory, version, steps, result),
        next_action(steps, "WorkingMemoryRecord"@, version, action),
    ensures
        match action {
            Ok(MigrationAction::Migrate { from, to }) => result == Ok::<HydrationStep, StateError>(
                HydrationStep::Migrate(PendingMemory { source, memory, from, to }),
            ),
            _ => is_version_refusal(torn_write(source), "WorkingMemoryRecord"@, version, result),
        },
{
}

/// The records that a step hands on to be used or opened.
pub open spec fn records_of(step: HydrationStep) -> Option<(
    AgentStateRecord,
    WorkingMemoryRecord,
)> {
    match step {
        HydrationStep::Complete(hydrated) => Some((hydrated.state, hydrated.working_memory)),
        HydrationStep::Decrypt(sealed) => Some((sealed.state, sealed.working_memory)),
        _ => None,
    }
}

/// Records that do not fit each other are never handed on, wherever they come from and whatever
/// migrations they went through.
pub proof fn law_hydrated_records_are_consistent(
    source: MemorySource,
    memory: WorkingMemoryRecord,
    version: u32,
    steps: Map<u32, u32>,
    result: StateResult<HydrationStep>,
)
    requires
        memory_version_answer(source, memory, version, steps, result),
    ensures
        result matches Ok(step) ==> (records_of(step) matches Some(records) ==> consistent(
            records.0,
            records.1,
        ) && records.1 == memory),
{
}

/// Records that go on without a checkpoint are those that one freeze wrote.
pub proof fn law_unrecovered_records_are_consistent(
    run: MemoryRead,
    memory: WorkingMemoryRecord,
    steps: Map<u32, u32>,
    result: StateResult<HydrationStep>,
)
    requires
        memory_answer(run, Ok(Some(memory)), steps, result),
        result matches Ok(step) && records_of(step) is Some,
    ensures
        consistent(run.state, memory),
        result == Ok::<HydrationStep, StateError>(
            loaded_step(run.agent_id, run.state, memory, false),
        ),
{
}

/// A recovery restores both records together: state and working memory of the hydrated agent
/// come from one checkpoint and fit each other.
pub proof fn law_recovered_records_are_consistent(
    run: Recovery,
    images: Seq<CheckpointImage>,
    i: int,
    recovered: RecoveredAgent,
    steps: Map<u32, u32>,
    result: StateResult<HydrationStep>,
)
    requires
        is_restored_from(images, i, recovered),
        recovery_answer(run, Ok(recovered), steps, result),
    ensures
        consistent(recovered.state, recovered.working_memory),
        result matches Ok(step) ==> match step {
            HydrationStep::Migrate(pending) => pending.memory == recovered.working_memory
                && pending.source == MemorySource::Recovered { run, state: recovered.state },
            _ => step == loaded_step(
                run.agent_id,
                recovered.state,
                recovered.working_memory,
                true,
            ),
        },
{
}

/// Sealed content is never handed out: every way to a hydrated agent ends with records whose
/// content is in plaintext.
pub proof fn law_sealed_content_is_not_handed_out(
    run: SealedAgent,
    state_key: StateResult<EncryptionKey>,
    memory_key: StateResult<EncryptionKey>,
    result: StateResult<HydrationResult>,
)
    requires
        decryption_answer(run, state_key, memory_key, result),
    ensures
        result matches Ok(hydrated) ==> !is_sealed(hydrated.state.encryption) && !is_sealed(
            hydrated.working_memory.encryption,
        ),
        loaded_step(
            run.agent_id,
            run.state,
            run.working_memory,
            run.recovered_from_checkpoint,
        ) matches HydrationStep::Complete(hydrated) ==> !is_sealed(hydrated.state.encryption)
            && !is_sealed(hydrated.working_memory.encryption),
{
    let (state_content, memory_content) = choose|
        state_content: StateResult<Option<EncryptionEnvelope>>,
        memory_content: StateResult<Option<EncryptionEnvelope>>,
    |
        {
            &&& #[trigger] open_answer(
                run.state.encryption,
                run.agent_id@,
                state_key,
                state_content,
            )
            &&& #[trigger] open_answer(
                run.working_memory.encryption,
                run.agent_id@,
                memory_key,
                memory_content,
            )
            &&& result == opened_records(run, state_content, memory_content)
        };
    law_opened_content_is_plain(run.state.encryption, run.agent_id@, state_key, state_content);
    law_opened_content_is_plain(
        run.working_memory.encryption,
        run.agent_id@,
        memory_key,
        memory_content,
    );
}

/// Without the key of a sealed record the hydration is refused. Where the state cannot be opened
/// for another reason, that reason comes first.
pub proof fn law_missing_key_refuses_hydration(
    run: SealedAgent,
    state_key: StateResult<EncryptionKey>,
    memory_key: StateResult<EncryptionKey>,
    result: StateResult<HydrationResult>,
)
    requires
        decryption_answer(run, state_key, memory_key, result),
        (is_sealed(run.state.encryption) && state_key is Err) || (is_sealed(
            run.working_memory.encryption,
        ) && memory_key is Err),
    ensures
        result is Err,
        (is_sealed(run.state.encryption) && state_key is Err) || opens_with(
            run.state.encryption,
            state_key,
        ) ==> result matches Err(StateError::EncryptionKeyUnavailable { .. }),
{
    let (state_content, memory_content) = choose|
        state_content: StateResult<Option<EncryptionEnvelope>>,
        memory_content: StateResult<Option<EncryptionEnvelope>>,
    |
        {
            &&& #[trigger] open_answer(
                run.state.encryption,
                run.agent_id@,
                state_key,
                state_content,
            )
            &&& #[trigger] open_answer(
                run.working_memory.encryption,
                run.agent_id@,
                memory_key,
                memory_content,
            )
            &&& result == opened_records(run, state_content, memory_content)
        };
    law_only_what_opens_is_handed_out(
        run.state.encryption,
        run.agent_id@,
        state_key,
        state_content,
    );
}

/// Sealed records are handed out exactly where both contents open.
pub proof fn law_records_are_handed_out_if_both_open(
    run: SealedAgent,
    state_key: StateResult<EncryptionKey>,
    memory_key: StateResult<EncryptionKey>,
    result: StateResult<HydrationResult>,
)
    requires
        decryption_answer(run, state_key, memory_key, result),
    ensures
        result is Ok <==> opens_with(run.state.encryption, state_key) && opens_with(
            run.working_memory.encryption,
            memory_key,
        ),
{
    let (state_content, memory_content) = choose|
        state_content: StateResult<Option<EncryptionEnvelope>>,
        memory_content: StateResult<Option<EncryptionEnvelope>>,
    |
        {
            &&& #[trigger] open_answer(
                run.state.encryption,
                run.agent_id@,
                state_key,
                state_content,
            )
            &&& #[trigger] open_answer(
                run.working_memory.encryption,
                run.agent_id@,
                memory_key,
                memory_content,
            )
            &&& result == opened_records(run, state_content, memory_content)
        };
    law_only_what_opens_is_handed_out(
        run.state.encryption,
        run.agent_id@,
        state_key,
        state_content,
    );
    law_only_what_opens_is_handed_out(
        run.working_memory.encryption,
        run.agent_id@,
        memory_key,
        memory_content,
    );
}

/// An agent that died while it was active does not stay locked: once the threshold has passed
/// since its last hydration, it can be hydrated again.
pub proof fn law_stale_agent_is_released(
    run: StateRead,
    state: AgentStateRecord,
    now_secs: u64,
    threshold: u64,
)
    requires
        hydration_age(state, now_secs) >= threshold,
    ensures
        current_answer(run, state, now_secs, threshold) matches Ok(StateStep::Read(next))
            && next.state == state,
{
}

/// An agent that is in use is refused, and nothing of it is handed out.
pub proof fn law_busy_agent_is_refused(
    run: StateRead,
    state: AgentStateRecord,
    now_secs: u64,
    threshold: u64,
)
    requires
        state.status == AgentLifecycleStatus::Active,
        hydration_age(state, now_secs) < threshold,
    ensures
        current_answer(run, state, now_secs, threshold) matches Err(StateError::AgentBusy { .. }),
{
}

/// An agent that is active and was last hydrated less than the threshold ago is busy, and the
/// answer says how many seconds ago that was.
pub proof fn law_recently_hydrated_agent_is_busy(
    manager: AgentHydrationManager,
    run: StateRead,
    state: AgentStateRecord,
    hydrated_at: Timestamp,
    migrations: MigrationRegistry,
    now_secs: u64,
    result: StateResult<StateStep>,
)
    requires
        call_ensures(
            AgentHydrationManager::state_fetched_at,
            (&manager, run, Ok(Some(state)), &migrations, now_secs),
            result,
        ),
        state.schema_version == LATEST_SCHEMA_VERSION,
        state.status == AgentLifecycleStatus::Active,
        state.last_hydrated_at == Some(hydrated_at),
        0 <= hydrated_at.seconds <= now_secs,
        now_secs - hydrated_at.seconds < manager.threshold(),
    ensures
        result == Err::<StateStep, StateError>(
            StateError::AgentBusy {
                tenant_id: run.tenant_id,
                agent_id: run.agent_id,
                last_hydrated_secs: (now_secs - hydrated_at.seconds) as u64,
            },
        ),
{
}

/// An agent whose last hydration lies ahead of the clock, or so far back that its time is
/// negative, was hydrated just now as far as can be told.
pub proof fn law_hydration_off_the_clock_is_just_now(
    manager: AgentHydrationManager,
    run: StateRead,
    state: AgentStateRecord,
    hydrated_at: Timestamp,
    migrations: MigrationRegistry,
    now_secs: u64,
    result: StateResult<StateStep>,
)
    requires
        call_ensures(
            AgentHydrationManager::state_fetched_at,
            (&manager, run, Ok(Some(state)), &migrations, now_secs),
            result,
        ),
        state.schema_version == LATEST_SCHEMA_VERSION,
        state.status == AgentLifecycleStatus::Active,
        state.last_hydrated_at == Some(hydrated_at),
        now_secs <= i64::MAX,
        hydrated_at.seconds < 0 || now_secs < hydrated_at.seconds,
        0 < manager.threshold(),
    ensures
        result == Err::<StateStep, StateError>(
            StateError::AgentBusy {
                tenant_id: run.tenant_id,
                agent_id: run.agent_id,
                last_hydrated_secs: 0,
            },
        ),
{
    let seconds = hydrated_at.seconds;
    if seconds < 0 {
        assert(seconds as u64 >= 0x8000_0000_0000_0000u64) by (bit_vector)
            requires
                seconds < 0i64,
        ;
    }
}

/// An agent that is not in use, or has not been hydrated for as long as the threshold, is
/// hydrated: its working memory is read next, and its state is handed on as it was read. One that
/// was never hydrated counts from the epoch.
pub proof fn law_idle_or_stale_agent_is_read(
    manager: AgentHydrationManager,
    run: StateRead,
    state: AgentStateRecord,
    migrations: MigrationRegistry,
    now_secs: u64,
    result: StateResult<StateStep>,
)
    requires
        call_ensures(
            AgentHydrationManager::state_fetched_at,
            (&manager, run, Ok(Some(state)), &migrations, now_secs),
            result,
        ),
        state.schema_version == LATEST_SCHEMA_VERSION,
        state.status != AgentLifecycleStatus::Active || match state.last_hydrated_at {
            Some(t) => 0 <= t.seconds <= now_secs && now_secs - t.seconds >= manager.threshold(),
            None => now_secs >= manager.threshold(),
        },
    ensures
        result matches Ok(StateStep::Read(next)) && next.tenant_id == run.tenant_id
            && next.agent_id == run.agent_id && next.memory_key == run.memory_key && next.state
            == state,
{
}

/// Whether an agent is busy depends on its status and its last hydration alone: two records that
/// agree in them, whatever else they hold, are both refused or both read.
pub proof fn law_busy_depends_on_status_and_hydration(
    manager: AgentHydrationManager,
    run: StateRead,
    state1: AgentStateRecord,
    state2: AgentStateRecord,
    migrations: MigrationRegistry,
    now_secs: u64,
    result1: StateResult<StateStep>,
    result2: StateResult<StateStep>,
)
    requires
        call_ensures(
            AgentHydrationManager::state_fetched_at,
            (&manager, run, Ok(Some(state1)), &migrations, now_secs),
            result1,
        ),
        call_ensures(
            AgentHydrationManager::state_fetched_at,
            (&manager, run, Ok(Some(state2)), &migrations, now_secs),
            result2,
        ),
        state1.schema_version == LATEST_SCHEMA_VERSION,
        state2.schema_version == LATEST_SCHEMA_VERSION,
        state1.status == state2.status,
        state1.last_hydrated_at == state2.last_hydrated_at,
    ensures
        result1 is Err <==> result2 is Err,
        result1 matches Err(e) ==> result2 == Err::<StateStep, StateError>(e),
{
}

/// An agent that is busy stays busy only until the threshold has passed since its last hydration,
/// and the longer that is ago, the greater the age in the answer.
pub proof fn law_busy_age_grows_with_time(
    manager: AgentHydrationManager,
    run: StateRead,
    state: AgentStateRecord,
    migrations: MigrationRegistry,
    now_secs: u64,
    later_secs: u64,
    result1: StateResult<StateStep>,
    result2: StateResult<StateStep>,
)
    requires
        call_ensures(
            AgentHydrationManager::state_fetched_at,
            (&manager, run, Ok(Some(state)), &migrations, now_secs),
            result1,
        ),
        call_ensures(
            AgentHydrationManager::state_fetched_at,
            (&manager, run, Ok(Some(state)), &migrations, later_secs),
            result2,
        ),
        state.schema_version == LATEST_SCHEMA_VERSION,
        state.last_hydrated_at matches Some(t) && 0 <= t.seconds <= now_secs,
        now_secs <= later_secs,
    ensures
        result1 is Ok ==> result2 is Ok,
        result1 matches Err(StateError::AgentBusy { last_hydrated_secs: age1, .. }) ==> match result2 {
            Err(StateError::AgentBusy { last_hydrated_secs: age2, .. }) => age2 - age1 == later_secs
                - now_secs,
            Err(_) => false,
            Ok(_) => later_secs - now_secs + age1 >= manager.threshold(),
        },
{
}

/// The keys that a hydration reads are those of the state and the working memory of the agent
/// that was asked for.
pub proof fn law_hydration_reads_the_agents_records(
    manager: AgentHydrationManager,
    tenant_id: &str,
    agent_id: &str,
    run: StateRead,
)
    requires
        call_ensures(
            AgentHydrationManager::hydrate,
            (&manager, tenant_id, agent_id),
            Ok(run),
        ),
    ensures
        run.tenant_id@ == tenant_id@,
        run.agent_id@ == agent_id@,
        run.state_key@ == tenant_id@ + "||"@ + agent_id@ + "||state"@,
        run.memory_key@ == tenant_id@ + "||"@ + agent_id@ + "||working_memory"@,
{
    law_record_keys_in_full(tenant_id@, agent_id@, 0, Seq::empty(), Seq::empty());
}

/// What cannot be read is not hydrated: an error of the store is passed on, and an agent without
/// a state record has to be created first.
pub proof fn law_unread_state_is_not_hydrated(
    manager: AgentHydrationManager,
    run: StateRead,
    fetched: StateResult<Option<AgentStateRecord>>,
    migrations: MigrationRegistry,
    now_secs: u64,
    result: StateResult<StateStep>,
)
    requires
        call_ensures(
            AgentHydrationManager::state_fetched_at,
            (&manager, run, fetched, &migrations, now_secs),
            result,
        ),
    ensures
        fetched matches Err(e) ==> result == Err::<StateStep, StateError>(e),
        fetched matches Ok(None) ==> result matches Err(StateError::InvalidInput(_)),
{
}

/// A state record that the last migration gave is treated as one that was read: it is what goes
/// on, and what the agent is found busy by.
pub proof fn law_migrated_state_is_treated_as_read(
    manager: AgentHydrationManager,
    pending: PendingMigration,
    state: AgentStateRecord,
    migrations: MigrationRegistry,
    now_secs: u64,
    after_migration: StateResult<StateStep>,
    after_read: StateResult<StateStep>,
)
    requires
        call_ensures(
            AgentHydrationManager::state_migrated_at,
            (&manager, pending, Ok(state), &migrations, now_secs),
            after_migration,
        ),
        call_ensures(
            AgentHydrationManager::state_fetched_at,
            (&manager, pending.run, Ok(Some(state)), &migrations, now_secs),
            after_read,
        ),
        pending.to == LATEST_SCHEMA_VERSION,
        state.schema_version == LATEST_SCHEMA_VERSION,
    ensures
        after_migration == after_read,
{
}

/// A migration is asked for exactly where a record is older than the latest schema and a step for
/// its version is known; the step is given the record as it was read.
pub proof fn law_old_state_is_handed_to_its_migration(
    manager: AgentHydrationManager,
    run: StateRead,
    state: AgentStateRecord,
    migrations: MigrationRegistry,
    now_secs: u64,
    result: StateResult<StateStep>,
)
    requires
        call_ensures(
            AgentHydrationManager::state_fetched_at,
            (&manager, run, Ok(Some(state)), &migrations, now_secs),
            result,
        ),
    ensures
        (result matches Ok(StateStep::Migrate(_))) <==> state.schema_version < LATEST_SCHEMA_VERSION
            && migrations.steps().contains_key(state.schema_version),
        result matches Ok(StateStep::Migrate(pending)) ==> pending.run == run && pending.state
            == state && pending.from == state.schema_version && pending.to
            == migrations.steps()[state.schema_version],
        state.schema_version != LATEST_SCHEMA_VERSION ==> match result {
            Ok(StateStep::Migrate(_)) => true,
            Err(StateError::UnsupportedSchemaVersion { found, max_known, .. }) => found
                == state.schema_version && max_known == LATEST_SCHEMA_VERSION,
            _ => false,
        },
{
}

/// A migration that failed ends the hydration with its error.
pub proof fn law_failed_migration_ends_hydration(
    manager: AgentHydrationManager,
    pending: PendingMigration,
    e: StateError,
    migrations: MigrationRegistry,
    now_secs: u64,
    result: StateResult<StateStep>,
)
    requires
        call_ensures(
            AgentHydrationManager::state_migrated_at,
            (&manager, pending, Err(e), &migrations, now_secs),
            result,
        ),
    ensures
        result == Err::<StateStep, StateError>(e),
{
}

/// A working memory of another version than the state refers to is a torn write, and the
/// recovery says which version that was. Nothing of it is used.
pub proof fn law_torn_write_is_recovered(
    manager: AgentHydrationManager,
    run: MemoryRead,
    memory: WorkingMemoryRecord,
    migrations: MigrationRegistry,
    result: StateResult<HydrationStep>,
)
    requires
        call_ensures(
            AgentHydrationManager::memory_fetched,
            (&manager, run, Ok(Some(memory)), &migrations),
            result,
        ),
        memory.schema_version == LATEST_SCHEMA_VERSION,
        memory.version != run.state.working_memory_version,
    ensures
        result matches Ok(HydrationStep::Recover(recovery)) && recovery.tenant_id == run.tenant_id
            && recovery.agent_id == run.agent_id && recovery.state == run.state
            && recovery.torn_version == Some(memory.version),
{
}

/// A working memory of the version that the state refers to is used as it is: both records are
/// handed on unchanged, to be decrypted where either of them is in any scheme but plaintext.
pub proof fn law_fitting_records_are_handed_on(
    manager: AgentHydrationManager,
    run: MemoryRead,
    memory: WorkingMemoryRecord,
    migrations: MigrationRegistry,
    result: StateResult<HydrationStep>,
)
    requires
        call_ensures(
            AgentHydrationManager::memory_fetched,
            (&manager, run, Ok(Some(memory)), &migrations),
            result,
        ),
        memory.schema_version == LATEST_SCHEMA_VERSION,
        memory.version == run.state.working_memory_version,
    ensures
        match result {
            Ok(HydrationStep::Complete(hydrated)) => {
                &&& hydrated.state == run.state
                &&& hydrated.working_memory == memory
                &&& !hydrated.recovered_from_checkpoint
                &&& run.state.encryption matches Some(e) ==> e.scheme == EncryptionScheme::Plaintext
                &&& memory.encryption matches Some(e) ==> e.scheme == EncryptionScheme::Plaintext
            },
            Ok(HydrationStep::Decrypt(sealed)) => {
                &&& sealed.agent_id == run.agent_id
                &&& sealed.state == run.state
                &&& sealed.working_memory == memory
                &&& !sealed.recovered_from_checkpoint
                &&& (run.state.encryption matches Some(e) && e.scheme
                    != EncryptionScheme::Plaintext) || (memory.encryption matches Some(e)
                    && e.scheme != EncryptionScheme::Plaintext)
            },
            _ => false,
        },
{
}

/// A working memory that is missing is recovered, and one that could not be read is not: the error
/// of the store is passed on.
pub proof fn law_missing_memory_is_recovered(
    manager: AgentHydrationManager,
    run: MemoryRead,
    fetched: StateResult<Option<WorkingMemoryRecord>>,
    migrations: MigrationRegistry,
    result: StateResult<HydrationStep>,
)
    requires
        call_ensures(
            AgentHydrationManager::memory_fetched,
            (&manager, run, fetched, &migrations),
            result,
        ),
    ensures
        fetched matches Err(e) ==> result == Err::<HydrationStep, StateError>(e),
        fetched matches Ok(None) ==> result matches Ok(HydrationStep::Recover(recovery))
            && recovery.tenant_id == run.tenant_id && recovery.agent_id == run.agent_id
            && recovery.state == run.state && recovery.torn_version is None,
{
}

/// Records that a recovery gave are handed on together and marked as recovered, with the state
/// set to the version of the working memory and otherwise as it was.
pub proof fn law_recovered_records_are_handed_on(
    manager: AgentHydrationManager,
    run: Recovery,
    found: RecoveredAgent,
    migrations: MigrationRegistry,
    result: StateResult<HydrationStep>,
)
    requires
        call_ensures(
            AgentHydrationManager::memory_recovered,
            (&manager, run, Ok(found), &migrations),
            result,
        ),
        found.state.schema_version == LATEST_SCHEMA_VERSION,
        found.working_memory.schema_version == LATEST_SCHEMA_VERSION,
    ensures
        ({
            let state = AgentStateRecord {
                working_memory_version: found.working_memory.version,
                ..found.state
            };
            match result {
                Ok(HydrationStep::Complete(hydrated)) => hydrated.state == state
                    && hydrated.working_memory == found.working_memory
                    && hydrated.recovered_from_checkpoint && !is_sealed(state.encryption)
                    && !is_sealed(found.working_memory.encryption),
                Ok(HydrationStep::Decrypt(sealed)) => sealed.state == state
                    && sealed.working_memory == found.working_memory && sealed.agent_id
                    == run.agent_id && sealed.recovered_from_checkpoint && (is_sealed(
                    state.encryption,
                ) || is_sealed(found.working_memory.encryption)),
                _ => false,
            }
        }),
{
}

/// A recovery that failed is reported as the torn write behind it, with both versions, and as its
/// own error where there was no working memory.
pub proof fn law_failed_recovery_is_reported(
    manager: AgentHydrationManager,
    run: Recovery,
    e: StateError,
    migrations: MigrationRegistry,
    result: StateResult<HydrationStep>,
)
    requires
        call_ensures(
            AgentHydrationManager::memory_recovered,
            (&manager, run, Err(e), &migrations),
            result,
        ),
    ensures
        match run.torn_version {
            Some(version) => result == Err::<HydrationStep, StateError>(
                StateError::TornWrite {
                    agent_id: run.agent_id,
                    state_version: run.state.working_memory_version,
                    memory_version: version,
                },
            ),
            None => result == Err::<HydrationStep, StateError>(e),
        },
{
}

/// A working memory that the last migration gave is treated as one that was read. Where the step
/// does not touch the record, that is the record from before under the new schema version.
pub proof fn law_migrated_memory_is_treated_as_read(
    manager: AgentHydrationManager,
    pending: PendingMemory,
    run: MemoryRead,
    migrated: Option<WorkingMemoryRecord>,
    memory: WorkingMemoryRecord,
    migrations: MigrationRegistry,
    after_migration: StateResult<HydrationStep>,
    after_read: StateResult<HydrationStep>,
)
    requires
        call_ensures(
            AgentHydrationManager::memory_migrated,
            (&manager, pending, Ok(migrated), &migrations),
            after_migration,
        ),
        call_ensures(
            AgentHydrationManager::memory_fetched,
            (&manager, run, Ok(Some(memory)), &migrations),
            after_read,
        ),
        pending.source == MemorySource::Stored(run),
        pending.to == LATEST_SCHEMA_VERSION,
        memory.schema_version == LATEST_SCHEMA_VERSION,
        match migrated {
            Some(given) => memory == given,
            None => memory == (WorkingMemoryRecord {
                schema_version: LATEST_SCHEMA_VERSION,
                ..pending.memory
            }),
        },
    ensures
        after_migration == after_read,
{
}

/// Decryption changes the protected content of the records and nothing else of them.
pub proof fn law_decryption_changes_content_alone(
    manager: AgentHydrationManager,
    run: SealedAgent,
    state_key: StateResult<EncryptionKey>,
    memory_key: StateResult<EncryptionKey>,
    hydrated: HydrationResult,
)
    requires
        call_ensures(
            AgentHydrationManager::keys_fetched,
            (&manager, run, state_key, memory_key),
            Ok(hydrated),
        ),
    ensures
        hydrated.state == (AgentStateRecord {
            encryption: hydrated.state.encryption,
            ..run.state
        }),
        hydrated.working_memory == (WorkingMemoryRecord {
            encryption: hydrated.working_memory.encryption,
            ..run.working_memory
        }),
        hydrated.recovered_from_checkpoint == run.recovered_from_checkpoint,
        !is_sealed(run.state.encryption) ==> hydrated.state.encryption == run.state.encryption,
        !is_sealed(run.working_memory.encryption) ==> hydrated.working_memory.encryption
            == run.working_memory.encryption,
{
}

/// Sealed content comes out as what AES-GCM opens it to, each record with its own key.
pub proof fn law_each_record_is_opened_with_its_key(
    manager: AgentHydrationManager,
    run: SealedAgent,
    state_key: StateResult<EncryptionKey>,
    memory_key: StateResult<EncryptionKey>,
    hydrated: HydrationResult,
)
    requires
        call_ensures(
            AgentHydrationManager::keys_fetched,
            (&manager, run, state_key, memory_key),
            Ok(hydrated),
        ),
    ensures
        is_sealed(run.state.encryption) ==> is_opened_by(
            run.state.encryption,
            state_key,
            hydrated.state.encryption,
        ),
        is_sealed(run.working_memory.encryption) ==> is_opened_by(
            run.working_memory.encryption,
            memory_key,
            hydrated.working_memory.encryption,
        ),
{
}

/// Whether `opened` is the plaintext of sealed content under a key.
pub open spec fn is_opened_by(
    envelope: Option<EncryptionEnvelope>,
    key: StateResult<EncryptionKey>,
    opened: Option<EncryptionEnvelope>,
) -> bool {
    envelope matches Some(sealed) && opened matches Some(plain) && key matches Ok(
        EncryptionKey::Aes256Gcm(raw_key),
    ) && aes256gcm_open(
        raw_key@,
        sealed.iv_or_nonce@,
        sealed.aad@,
        sealed.ciphertext@,
    ) == Some(plain.ciphertext@) && plain.scheme == EncryptionScheme::Plaintext
}

/// The key that is asked for is the one that the envelope of the record names, and none is asked
/// for where there is nothing to open.
pub proof fn law_keys_are_those_of_the_envelopes(
    run: SealedAgent,
    state_key_id: Option<&str>,
    memory_key_id: Option<&str>,
)
    requires
        call_ensures(SealedAgent::state_key_id, (&run,), state_key_id),
        call_ensures(SealedAgent::memory_key_id, (&run,), memory_key_id),
    ensures
        match run.state.encryption {
            Some(envelope) => if envelope.scheme != EncryptionScheme::Plaintext {
                state_key_id matches Some(id) && id@ == envelope.key_id@
            } else {
                state_key_id is None
            },
            None => state_key_id is None,
        },
        match run.working_memory.encryption {
            Some(envelope) => if envelope.scheme != EncryptionScheme::Plaintext {
                memory_key_id matches Some(id) && id@ == envelope.key_id@
            } else {
                memory_key_id is None
            },
            None => memory_key_id is None,
        },
{
}

/// How long ago a busy agent was hydrated is counted up to a time that was read off the clock.
pub proof fn law_busy_age_follows_the_clock(
    manager: AgentHydrationManager,
    run: StateRead,
    state: AgentStateRecord,
    hydrated_at: Timestamp,
    migrations: MigrationRegistry,
    result: StateResult<StateStep>,
)
    requires
        call_ensures(
            AgentHydrationManager::state_fetched,
            (&manager, run, Ok(Some(state)), &migrations),
            result,
        ),
        state.schema_version == LATEST_SCHEMA_VERSION,
        state.status == AgentLifecycleStatus::Active,
        state.last_hydrated_at == Some(hydrated_at),
        hydrated_at.seconds >= 0,
    ensures
        exists|now_secs: u64| #[trigger]
            is_clock_secs(now_secs) && {
                let age: int = if hydrated_at.seconds <= now_secs {
                    now_secs - hydrated_at.seconds
                } else {
                    0
                };
                if age < manager.threshold() {
                    result matches Err(StateError::AgentBusy { last_hydrated_secs, .. })
                        && last_hydrated_secs == age
                } else {
                    result matches Ok(StateStep::Read(next)) && next.state == state
                }
            },
{
    let now_secs = choose|now_secs: u64|
        is_clock_secs(now_secs) && #[trigger] state_answer(
            run,
            Ok(Some(state)),
            migrations.steps(),
            now_secs,
            manager.threshold(),
            result,
        );
    assert(is_clock_secs(now_secs));
}

/// A manager presumes agents dead that have been active for five minutes.
pub proof fn law_agents_are_presumed_dead_after_five_minutes(
    store: DaprStateStore,
    manager: AgentHydrationManager,
)
    requires
        call_ensures(AgentHydrationManager::new, (store,), manager),
    ensures
        manager.threshold() == 5 * 60,
        manager.store_name() == store.name(),
{
}

/// A working memory of an older schema is handed to the step for its version, as it was read and
/// before it is compared with the state. Without a step, or of a newer schema, it is refused.
pub proof fn law_old_memory_is_handed_to_its_migration(
    manager: AgentHydrationManager,
    run: MemoryRead,
    memory: WorkingMemoryRecord,
    migrations: MigrationRegistry,
    result: StateResult<HydrationStep>,
)
    requires
        call_ensures(
            AgentHydrationManager::memory_fetched,
            (&manager, run, Ok(Some(memory)), &migrations),
            result,
        ),
    ensures
        (result matches Ok(HydrationStep::Migrate(_))) <==> memory.schema_version
            < LATEST_SCHEMA_VERSION && migrations.steps().contains_key(memory.schema_version),
        result matches Ok(HydrationStep::Migrate(pending)) ==> pending.source
            == MemorySource::Stored(run) && pending.memory == memory && pending.from
            == memory.schema_version && pending.to == migrations.steps()[memory.schema_version],
        memory.schema_version != LATEST_SCHEMA_VERSION ==> match result {
            Ok(HydrationStep::Migrate(_)) => true,
            Err(StateError::UnsupportedSchemaVersion { found, max_known, .. }) => found
                == memory.schema_version && max_known == LATEST_SCHEMA_VERSION,
            _ => false,
        },
{
}

/// A recovered working memory of an older schema is migrated as well, together with the state from
/// its checkpoint, and a recovered record of a newer schema, or an older state, is not used.
pub proof fn law_old_recovered_memory_is_migrated(
    manager: AgentHydrationManager,
    run: Recovery,
    found: RecoveredAgent,
    migrations: MigrationRegistry,
    result: StateResult<HydrationStep>,
)
    requires
        call_ensures(
            AgentHydrationManager::memory_recovered,
            (&manager, run, Ok(found), &migrations),
            result,
        ),
    ensures
        (result matches Ok(HydrationStep::Migrate(_))) <==> found.state.schema_version
            == LATEST_SCHEMA_VERSION && found.working_memory.schema_version < LATEST_SCHEMA_VERSION
            && migrations.steps().contains_key(found.working_memory.schema_version),
        result matches Ok(HydrationStep::Migrate(pending)) ==> pending.source
            == (MemorySource::Recovered { run, state: found.state }) && pending.memory
            == found.working_memory && pending.from == found.working_memory.schema_version
            && pending.to == migrations.steps()[found.working_memory.schema_version],
        found.state.schema_version != LATEST_SCHEMA_VERSION || found.working_memory.schema_version
            > LATEST_SCHEMA_VERSION ==> match result {
            Err(StateError::TornWrite { memory_version, .. }) => run.torn_version == Some(
                memory_version,
            ),
            Err(StateError::UnsupportedSchemaVersion { .. }) => run.torn_version is None,
            _ => false,
        },
{
}

/// What a migration makes of a recovered working memory is handed on with the state from its
/// checkpoint, set to the version of the working memory and marked as recovered.
pub proof fn law_migrated_recovery_is_handed_on(
    manager: AgentHydrationManager,
    pending: PendingMemory,
    run: Recovery,
    state: AgentStateRecord,
    memory: WorkingMemoryRecord,
    migrations: MigrationRegistry,
    result: StateResult<HydrationStep>,
)
    requires
        call_ensures(
            AgentHydrationManager::memory_migrated,
            (&manager, pending, Ok(Some(memory)), &migrations),
            result,
        ),
        pending.source == (MemorySource::Recovered { run, state }),
        pending.to >= LATEST_SCHEMA_VERSION,
    ensures
        match result {
            Ok(HydrationStep::Complete(hydrated)) => hydrated.state == (AgentStateRecord {
                working_memory_version: memory.version,
                ..state
            }) && hydrated.working_memory == memory && hydrated.recovered_from_checkpoint,
            Ok(HydrationStep::Decrypt(sealed)) => sealed.state == (AgentStateRecord {
                working_memory_version: memory.version,
                ..state
            }) && sealed.working_memory == memory && sealed.agent_id == run.agent_id
                && sealed.recovered_from_checkpoint,
            _ => false,
        },
{
}

/// A migration of the working memory that failed ends the hydration: with its error, or with the
/// torn write that made a recovery necessary.
pub proof fn law_failed_memory_migration_ends_hydration(
    manager: AgentHydrationManager,
    pending: PendingMemory,
    e: StateError,
    migrations: MigrationRegistry,
    result: StateResult<HydrationStep>,
)
    requires
        call_ensures(
            AgentHydrationManager::memory_migrated,
            (&manager, pending, Err(e), &migrations),
            result,
        ),
    ensures
        match pending.source {
            MemorySource::Stored(_) => result == Err::<HydrationStep, StateError>(e),
            MemorySource::Recovered { run, .. } => match run.torn_version {
                None => result == Err::<HydrationStep, StateError>(e),
                Some(version) => result == Err::<HydrationStep, StateError>(
                    StateError::TornWrite {
                        agent_id: run.agent_id,
                        state_version: run.state.working_memory_version,
                        memory_version: version,
                    },
                ),
            },
        },
{
}

/// A sealed agent is hydrated exactly where both its contents open: each is in plaintext or absent,
/// or there is an AES key for it and AES-GCM accepts it.
pub proof fn law_sealed_agent_is_hydrated_if_both_open(
    manager: AgentHydrationManager,
    run: SealedAgent,
    state_key: StateResult<EncryptionKey>,
    memory_key: StateResult<EncryptionKey>,
    result: StateResult<HydrationResult>,
)
    requires
        call_ensures(
            AgentHydrationManager::keys_fetched,
            (&manager, run, state_key, memory_key),
            result,
        ),
    ensures
        result is Ok <==> opens_with(run.state.encryption, state_key) && opens_with(
            run.working_memory.encryption,
            memory_key,
        ),
{
    law_records_are_handed_out_if_both_open(run, state_key, memory_key, result);
}

/// A missing key is reported by its id and the agent that needs it, that of the state first.
pub proof fn law_missing_key_is_named(
    manager: AgentHydrationManager,
    run: SealedAgent,
    sealed: EncryptionEnvelope,
    state_key: StateResult<EncryptionKey>,
    memory_key: StateResult<EncryptionKey>,
    result: StateResult<HydrationResult>,
)
    requires
        call_ensures(
            AgentHydrationManager::keys_fetched,
            (&manager, run, state_key, memory_key),
            result,
        ),
        sealed.scheme != EncryptionScheme::Plaintext,
        (run.state.encryption == Some(sealed) && state_key is Err) || (
        run.working_memory.encryption == Some(sealed) && memory_key is Err && opens_with(
            run.state.encryption,
            state_key,
        )),
    ensures
        result matches Err(StateError::EncryptionKeyUnavailable { key_id, agent_id, .. }) && key_id@
            == sealed.key_id@ && agent_id@ == run.agent_id@,
{
    let (state_content, memory_content) = choose|
        state_content: StateResult<Option<EncryptionEnvelope>>,
        memory_content: StateResult<Option<EncryptionEnvelope>>,
    |
        {
            &&& #[trigger] open_answer(
                run.state.encryption,
                run.agent_id@,
                state_key,
                state_content,
            )
            &&& #[trigger] open_answer(
                run.working_memory.encryption,
                run.agent_id@,
                memory_key,
                memory_content,
            )
            &&& result == opened_records(run, state_content, memory_content)
        };
    law_only_what_opens_is_handed_out(
        run.state.encryption,
        run.agent_id@,
        state_key,
        state_content,
    );
}

/// After a migration, too, how long ago a busy agent was hydrated is counted up to a time that was
/// read off the clock, and from what the migrated record says.
pub proof fn law_migrated_busy_age_follows_the_clock(
    manager: AgentHydrationManager,
    pending: PendingMigration,
    state: AgentStateRecord,
    hydrated_at: Timestamp,
    migrations: MigrationRegistry,
    result: StateResult<StateStep>,
)
    requires
        call_ensures(
            AgentHydrationManager::state_migrated,
            (&manager, pending, Ok(state), &migrations),
            result,
        ),
        pending.to >= LATEST_SCHEMA_VERSION,
        state.status == AgentLifecycleStatus::Active,
        state.last_hydrated_at == Some(hydrated_at),
        hydrated_at.seconds >= 0,
    ensures
        exists|now_secs: u64| #[trigger]
            is_clock_secs(now_secs) && {
                let age: int = if hydrated_at.seconds <= now_secs {
                    now_secs - hydrated_at.seconds
                } else {
                    0
                };
                if age < manager.threshold() {
                    result matches Err(StateError::AgentBusy { last_hydrated_secs, .. })
                        && last_hydrated_secs == age
                } else {
                    result matches Ok(StateStep::Read(next)) && next.state == state
                }
            },
{
    let now_secs = choose|now_secs: u64|
        is_clock_secs(now_secs) && #[trigger] migration_answer(
            pending,
            Ok(state),
            migrations.steps(),
            now_secs,
            manager.threshold(),
            result,
        );
    assert(is_clock_secs(now_secs));
}

} // verus!
