use af_swarm::checkpoint::{
    digest_of, greatest_seq, recover_from_checkpoint, CheckpointImage, RecoveredAgent,
};
use af_swarm::clock::{current_timestamp, timestamp_of, unix_secs};
use af_swarm::error::StateError;
use af_swarm::encryption::{
    encrypt, EncryptionKey, InMemoryKeyProvider, KeyProvider,
};
use af_swarm::freeze::{
    AgentFreezeManager, CheckpointWrite, FreezeInput, MAX_RETAINED_CHECKPOINTS,
};
use af_swarm::hydrate::{
    AgentHydrationManager, HydrationStep, MemoryRead, MemorySource, PendingMemory, Recovery,
    SealedAgent, StateStep,
};
use af_swarm::migrations::MigrationRegistry;
use af_swarm::proto::{
    AadBinding, AgentLifecycleStatus, AgentStateRecord, CheckpointTrigger, EncryptionEnvelope,
    EncryptionScheme, Timestamp, WorkingMemoryRecord,
};
use af_swarm::store::{DaprStateStore, ETag, TtlPolicy};
use af_swarm::LATEST_SCHEMA_VERSION;

fn at(seconds: i64) -> Timestamp {
    Timestamp { seconds, nanos: 0 }
}

fn etag(text: &str) -> ETag {
    ETag(text.to_string())
}

fn state(status: AgentLifecycleStatus, version: u64, hydrated: Option<Timestamp>) -> AgentStateRecord {
    AgentStateRecord {
        status,
        working_memory_version: version,
        last_hydrated_at: hydrated,
        last_frozen_at: None,
        current_task_id: "task-1".to_string(),
        current_task_taint: vec!["PII".to_string()],
        schema_version: LATEST_SCHEMA_VERSION,
        encryption: None,
        other_fields: vec![1, 2, 3],
    }
}

fn memory(version: u64) -> WorkingMemoryRecord {
    WorkingMemoryRecord {
        version,
        snapshot_at: None,
        schema_version: LATEST_SCHEMA_VERSION,
        encryption: None,
        other_fields: vec![9],
    }
}

fn hydration() -> AgentHydrationManager {
    AgentHydrationManager::new(DaprStateStore::new("statestore"))
}

fn none() -> MigrationRegistry {
    MigrationRegistry::default()
}

fn read(step: Result<StateStep, StateError>) -> MemoryRead {
    match step.unwrap() {
        StateStep::Read(next) => next,
        StateStep::Migrate(_) => panic!("nothing to migrate"),
    }
}

fn recovered(state_version: u64, version: u64) -> RecoveredAgent {
    RecoveredAgent {
        state: state(AgentLifecycleStatus::Frozen, state_version, None),
        working_memory: memory(version),
    }
}

fn complete(step: HydrationStep) -> af_swarm::hydrate::HydrationResult {
    match step {
        HydrationStep::Complete(hydrated) => hydrated,
        _ => panic!("the agent is not hydrated"),
    }
}

fn freezing() -> AgentFreezeManager {
    AgentFreezeManager::new(DaprStateStore::new("statestore"))
}

fn input(tenant: &str, agent: &str) -> FreezeInput {
    FreezeInput {
        tenant_id: tenant.to_string(),
        agent_id: agent.to_string(),
        state: state(AgentLifecycleStatus::Active, 4, Some(at(100))),
        working_memory: memory(4),
        state_etag: etag("s1"),
        memory_etag: etag("m1"),
        checkpoint_trigger: CheckpointTrigger(2),
    }
}

fn image(seq: u64, version: u64) -> CheckpointImage {
    let write = checkpoint(seq, version);
    CheckpointImage { record: write.record, state_bytes: vec![1, 2], memory_bytes: vec![3] }
}

fn checkpoint(seq: u64, version: u64) -> CheckpointWrite {
    let mut input = input("t", "a");
    input.working_memory = memory(version);
    AgentFreezeManager::write_checkpoint(input, vec![1, 2], vec![3], seq, at(50))
}

#[test]
fn hydration_reads_both_keys() {
    let manager = hydration();
    assert_eq!(manager.store().store_name(), "statestore");
    let run = manager.hydrate("t", "a").unwrap();
    assert_eq!(run.tenant_id, "t");
    assert_eq!(run.agent_id, "a");
    assert_eq!(run.state_key, "t||a||state");
    assert_eq!(run.memory_key, "t||a||working_memory");
}

#[test]
fn hydration_refuses_bad_ids() {
    let manager = hydration();
    assert_eq!(
        manager.hydrate("t||x", "").unwrap_err().message(),
        "invalid input: tenant_id must not contain '||': got \"t||x\""
    );
    assert_eq!(
        manager.hydrate("t", "").unwrap_err().message(),
        "invalid input: agent_id must not be empty"
    );
}

#[test]
fn unknown_agent_must_be_created() {
    let manager = hydration();
    let run = manager.hydrate("t", "a").unwrap();
    let refused = manager.state_fetched(run, Ok(None), &none()).unwrap_err();
    assert_eq!(
        refused.message(),
        "invalid input: no state record found for agent a; must create new agent"
    );
}

#[test]
fn failed_read_is_passed_on() {
    let manager = hydration();
    let run = manager.hydrate("t", "a").unwrap();
    let failed = manager
        .state_fetched(run, Err(StateError::ProtoError("bad tag".to_string())), &none())
        .unwrap_err();
    assert_eq!(failed.message(), "proto encode/decode error: bad tag");
}

#[test]
fn active_agent_is_busy_until_the_threshold() {
    let manager = hydration();
    let active = || Ok(Some(state(AgentLifecycleStatus::Active, 4, Some(at(1_000)))));
    let run = manager.hydrate("t", "a").unwrap();
    let busy = manager.state_fetched_at(run, active(), &none(), 1_299).unwrap_err();
    assert!(matches!(
        &busy,
        StateError::AgentBusy { tenant_id, agent_id, last_hydrated_secs: 299 }
            if tenant_id == "t" && agent_id == "a"
    ));
    assert_eq!(
        busy.message(),
        "agent a in tenant t is currently ACTIVE (last hydrated: 299s ago)"
    );
    let run = manager.hydrate("t", "a").unwrap();
    assert!(manager.state_fetched_at(run, active(), &none(), 1_300).is_ok());
    // A clock that went backwards counts as no time at all.
    let run = manager.hydrate("t", "a").unwrap();
    assert!(matches!(
        manager.state_fetched_at(run, active(), &none(), 900),
        Err(StateError::AgentBusy { last_hydrated_secs: 0, .. })
    ));
    // An agent that was never hydrated counts from the epoch.
    let run = manager.hydrate("t", "a").unwrap();
    let never = Ok(Some(state(AgentLifecycleStatus::Active, 4, None)));
    assert!(matches!(
        manager.state_fetched_at(run, never, &none(), 299),
        Err(StateError::AgentBusy { last_hydrated_secs: 299, .. })
    ));
}

#[test]
fn agent_that_is_long_stale_is_hydrated_now() {
    let manager = hydration();
    let run = manager.hydrate("t", "a").unwrap();
    let active = Ok(Some(state(AgentLifecycleStatus::Active, 4, Some(at(0)))));
    assert!(manager.state_fetched(run, active, &none()).is_ok());
    let run = manager.hydrate("t", "a").unwrap();
    let fresh = Ok(Some(state(AgentLifecycleStatus::Active, 4, Some(current_timestamp()))));
    assert!(matches!(manager.state_fetched(run, fresh, &none()), Err(StateError::AgentBusy { .. })));
}

#[test]
fn consistent_records_complete_the_hydration() {
    let manager = hydration();
    let run = manager.hydrate("t", "a").unwrap();
    let frozen = Ok(Some(state(AgentLifecycleStatus::Frozen, 4, Some(at(1_000)))));
    let next = read(manager.state_fetched_at(run, frozen, &none(), 1_000));
    assert_eq!(next.memory_key, "t||a||working_memory");
    let hydrated = complete(manager.memory_fetched(next, Ok(Some(memory(4))), &none()).unwrap());
    assert_eq!(hydrated.state.working_memory_version, 4);
    assert_eq!(hydrated.working_memory.version, 4);
    assert!(!hydrated.recovered_from_checkpoint);
}

#[test]
fn torn_write_is_recovered_or_reported() {
    let manager = hydration();
    let torn = || {
        let run = manager.hydrate("t", "a").unwrap();
        let frozen = Ok(Some(state(AgentLifecycleStatus::Other(9), 4, None)));
        let next = read(manager.state_fetched_at(run, frozen, &none(), 0));
        match manager.memory_fetched(next, Ok(Some(memory(5))), &none()).unwrap() {
            HydrationStep::Recover(recovery) => recovery,
            _ => panic!("the versions differ"),
        }
    };
    let recovery = torn();
    assert_eq!(recovery.torn_version, Some(5));
    let step = manager.memory_recovered(recovery, Ok(recovered(3, 3)), &none()).unwrap();
    let hydrated = complete(step);
    assert!(hydrated.recovered_from_checkpoint);
    assert_eq!(hydrated.working_memory.version, 3);
    assert_eq!(hydrated.state.working_memory_version, 3);
    let failed = manager
        .memory_recovered(torn(), Err(StateError::Storage("gone".to_string())), &none())
        .unwrap_err();
    assert_eq!(
        failed.message(),
        "torn write detected for agent a: state.working_memory_version=4 != memory.version=5"
    );
}

#[test]
fn missing_memory_is_recovered_or_the_reason_reported() {
    let manager = hydration();
    let missing = || {
        let run = manager.hydrate("t", "a").unwrap();
        let frozen = Ok(Some(state(AgentLifecycleStatus::Frozen, 4, None)));
        let next = read(manager.state_fetched_at(run, frozen, &none(), 0));
        match manager.memory_fetched(next, Ok(None), &none()).unwrap() {
            HydrationStep::Recover(recovery) => recovery,
            _ => panic!("there is no memory"),
        }
    };
    assert_eq!(missing().torn_version, None);
    let hydrated = manager.memory_recovered(missing(), Ok(recovered(4, 4)), &none()).unwrap();
    assert!(complete(hydrated).recovered_from_checkpoint);
    let without = recover_from_checkpoint("t", "a", Vec::new());
    assert_eq!(
        manager.memory_recovered(missing(), without, &none()).unwrap_err().message(),
        "no valid checkpoint for agent a in tenant t; manual recovery required"
    );
}

#[test]
fn failed_memory_read_is_passed_on() {
    let manager = hydration();
    let run = manager.hydrate("t", "a").unwrap();
    let frozen = Ok(Some(state(AgentLifecycleStatus::Frozen, 4, None)));
    let next = read(manager.state_fetched_at(run, frozen, &none(), 0));
    let down = Err(StateError::DaprError("down".to_string()));
    let failed = manager.memory_fetched(next, down, &none());
    assert!(matches!(failed, Err(StateError::DaprError(_))));
}

#[test]
fn freeze_writes_memory_then_state_then_checkpoint() {
    let manager = freezing();
    assert_eq!(manager.store().store_name(), "statestore");
    assert_eq!(MAX_RETAINED_CHECKPOINTS, 5);
    let first = manager.freeze_at(input("t", "a"), at(500)).unwrap();
    assert_eq!(first.key, "t||a||working_memory");
    assert_eq!(first.ttl, TtlPolicy::Seconds(86400));
    assert_eq!(first.input.memory_etag.0, "m1");
    assert_eq!(first.input.working_memory.version, 5);
    assert_eq!(first.input.working_memory.snapshot_at, Some(at(500)));
    assert_eq!(first.input.working_memory.schema_version, LATEST_SCHEMA_VERSION);
    assert_eq!(first.input.working_memory.other_fields, vec![9]);

    let second = manager
        .memory_written_at(first, vec![3], Ok(etag("m2")), at(501))
        .unwrap();
    assert_eq!(second.key, "t||a||state");
    assert_eq!(second.ttl, TtlPolicy::NoTtl);
    assert_eq!(second.input.state_etag.0, "s1");
    let frozen = &second.input.state;
    assert_eq!(frozen.status, AgentLifecycleStatus::Frozen);
    assert_eq!(frozen.working_memory_version, 5);
    assert_eq!(frozen.last_frozen_at, Some(at(501)));
    assert_eq!(frozen.last_hydrated_at, Some(at(100)));
    assert_eq!(frozen.current_task_id, "");
    assert!(frozen.current_task_taint.is_empty());
    assert_eq!(frozen.schema_version, LATEST_SCHEMA_VERSION);
    assert_eq!(frozen.other_fields, vec![1, 2, 3]);

    let third = manager
        .state_written_at(second, vec![1, 2], Ok(etag("s2")), Ok(None), 77, at(502))
        .unwrap();
    assert_eq!(third.key, "t||a||checkpoint||00000000000000000077");
    assert_eq!(third.ttl, TtlPolicy::NoTtl);
    let record = &third.record;
    assert_eq!(record.tenant_id, "t");
    assert_eq!(record.agent_id, "a");
    assert_eq!(record.checkpoint_seq, 77);
    assert_eq!(record.trigger, CheckpointTrigger(2));
    assert_eq!(record.pre_task_id, "");
    assert_eq!(record.state_snapshot.as_ref().unwrap().working_memory_version, 5);
    assert_eq!(record.memory_snapshot.as_ref().unwrap().version, 5);
    assert_eq!(record.sha256_digest, digest_of(&[1, 2], &[3]));
    assert_eq!(record.created_at, Some(at(502)));
    assert_eq!(record.schema_version, LATEST_SCHEMA_VERSION);

    assert_eq!(manager.checkpoint_written(77, Ok(etag("c1"))), 77);
    let refused = Err(StateError::DaprError("down".to_string()));
    assert_eq!(manager.checkpoint_written(77, refused), 0);
}

#[test]
fn freeze_takes_its_times_from_the_clock() {
    let manager = freezing();
    let before = unix_secs();
    let first = manager.freeze(input("t", "a")).unwrap();
    assert!(first.input.working_memory.snapshot_at.unwrap().seconds >= before as i64);
    let second = manager.memory_written(first, vec![], Ok(etag("m2"))).unwrap();
    assert!(second.input.state.last_frozen_at.unwrap().seconds >= before as i64);
    let third = manager.state_written(second, vec![], Ok(etag("s2")), Ok(None)).unwrap();
    assert!(third.record.checkpoint_seq >= before);
    assert!(third.record.checkpoint_seq <= unix_secs());
    assert!(before > 1_600_000_000);
}

#[test]
fn freeze_refuses_bad_ids() {
    let manager = freezing();
    assert_eq!(
        manager.freeze_at(input("", "a"), at(0)).unwrap_err().message(),
        "invalid input: tenant_id must not be empty"
    );
    assert_eq!(
        manager.freeze_at(input("t", "a||"), at(0)).unwrap_err().message(),
        "invalid input: agent_id must not contain '||': got \"a||\""
    );
}

#[test]
fn freeze_stops_at_a_refused_write() {
    let manager = freezing();
    let first = manager.freeze_at(input("t", "a"), at(0)).unwrap();
    let conflict = || Err(StateError::ETagConflict { key: "k".to_string() });
    assert!(matches!(
        manager.memory_written_at(first, vec![], conflict(), at(0)),
        Err(StateError::ETagConflict { .. })
    ));
    let first = manager.freeze_at(input("t", "a"), at(0)).unwrap();
    let second = manager.memory_written_at(first, vec![], Ok(etag("m2")), at(0)).unwrap();
    assert!(matches!(
        manager.state_written_at(second, vec![], conflict(), Ok(None), 1, at(0)),
        Err(StateError::ETagConflict { .. })
    ));
}

#[test]
fn frozen_agent_hydrates_again() {
    let first = freezing().freeze_at(input("t", "a"), at(500)).unwrap();
    let second = freezing().memory_written_at(first, vec![3], Ok(etag("m2")), at(501)).unwrap();
    let manager = hydration();
    let run = manager.hydrate("t", "a").unwrap();
    let next = read(manager.state_fetched_at(run, Ok(Some(second.input.state)), &none(), 100));
    let stored = Ok(Some(second.input.working_memory));
    let step = manager.memory_fetched(next, stored, &none()).unwrap();
    assert!(matches!(
        step,
        HydrationStep::Complete(hydrated) if !hydrated.recovered_from_checkpoint
    ));
}

#[test]
fn interrupted_freeze_is_noticed() {
    let first = freezing().freeze_at(input("t", "a"), at(500)).unwrap();
    let manager = hydration();
    let run = manager.hydrate("t", "a").unwrap();
    let next = read(manager.state_fetched_at(run, Ok(Some(first.input.state)), &none(), 10_000));
    let stored = Ok(Some(first.input.working_memory));
    let step = manager.memory_fetched(next, stored, &none()).unwrap();
    assert!(matches!(
        step,
        HydrationStep::Recover(recovery) if recovery.torn_version == Some(5)
    ));
}

#[test]
fn written_checkpoint_verifies() {
    assert!(image(1, 4).verify().is_ok());
}

#[test]
fn changed_checkpoint_is_corrupted() {
    let mut changed = image(12, 4);
    changed.memory_bytes = vec![4];
    let refused = changed.verify().unwrap_err();
    assert_eq!(
        refused.message(),
        "checkpoint 12 for agent a has invalid digest; possible tampering"
    );
    let mut truncated = image(12, 4);
    truncated.record.sha256_digest.pop();
    assert!(truncated.verify().is_err());
}

#[test]
fn recovery_takes_the_latest_valid_checkpoint() {
    let mut corrupted = image(30, 9);
    corrupted.state_bytes = vec![];
    let mut partial = image(40, 8);
    partial.record.memory_snapshot = None;
    let images = vec![image(10, 5), corrupted, image(20, 7), partial, image(15, 6)];
    let found = recover_from_checkpoint("t", "a", images).unwrap();
    assert_eq!(found.working_memory.version, 7);
    // The state comes from the same checkpoint and refers to that memory.
    assert_eq!(found.state.working_memory_version, 7);
    assert_eq!(found.state.other_fields, vec![1, 2, 3]);
}

#[test]
fn recovery_passes_over_checkpoints_of_other_agents() {
    // The keys of tenant "a|" with agent "b" and of tenant "a" with agent "|b" are the same.
    let of = |tenant: &str, agent: &str, seq: u64, version: u64| {
        let mut image = image(seq, version);
        image.record.tenant_id = tenant.to_string();
        image.record.agent_id = agent.to_string();
        image
    };
    let images = || vec![of("a|", "b", 10, 5), of("a", "|b", 20, 6), of("a|", "c", 30, 7)];
    let found = recover_from_checkpoint("a|", "b", images()).unwrap();
    assert_eq!(found.working_memory.version, 5);
    let found = recover_from_checkpoint("a", "|b", images()).unwrap();
    assert_eq!(found.working_memory.version, 6);
    assert!(matches!(
        recover_from_checkpoint("a", "b", images()),
        Err(StateError::NoCheckpointAvailable { .. })
    ));
}

#[test]
fn recovery_needs_a_valid_checkpoint() {
    let mut stateless = image(1, 1);
    stateless.record.state_snapshot = None;
    assert!(matches!(
        recover_from_checkpoint("t", "a", vec![stateless]),
        Err(StateError::NoCheckpointAvailable { .. })
    ));
}

#[test]
fn digest_covers_both_records_in_order() {
    let abc = vec![
        0xba, 0x78, 0x16, 0xbf, 0x8f, 0x01, 0xcf, 0xea, 0x41, 0x41, 0x40, 0xde, 0x5d, 0xae, 0x22,
        0x23, 0xb0, 0x03, 0x61, 0xa3, 0x96, 0x17, 0x7a, 0x9c, 0xb4, 0x10, 0xff, 0x61, 0xf2, 0x00,
        0x15, 0xad,
    ];
    assert_eq!(digest_of(b"ab", b"c"), abc);
    assert_eq!(digest_of(b"", b"abc"), abc);
    assert_ne!(digest_of(b"c", b"ab"), abc);
}

#[test]
fn timestamps_keep_seconds_and_nanos() {
    assert_eq!(timestamp_of(5, 7), Timestamp { seconds: 5, nanos: 7 });
    let now = current_timestamp();
    assert!(now.seconds > 1_600_000_000);
    assert!(now.nanos >= 0 && now.nanos < 1_000_000_000);
}

#[test]
fn newer_schema_is_refused() {
    let manager = hydration();
    let mut newer = state(AgentLifecycleStatus::Frozen, 4, None);
    newer.schema_version = 2;
    let mut migrations = none();
    migrations.register(2, 1);
    let run = manager.hydrate("t", "a").unwrap();
    let refused = manager.state_fetched_at(run, Ok(Some(newer)), &migrations, 0).unwrap_err();
    assert_eq!(
        refused.message(),
        "unsupported schema version 2 for record type AgentStateRecord (max known: 1)"
    );
    let run = manager.hydrate("t", "a").unwrap();
    let current = Ok(Some(state(AgentLifecycleStatus::Frozen, 4, None)));
    let next = read(manager.state_fetched_at(run, current, &migrations, 0));
    let mut newer = memory(4);
    newer.schema_version = 7;
    assert_eq!(
        manager.memory_fetched(next, Ok(Some(newer)), &none()).unwrap_err().message(),
        "unsupported schema version 7 for record type WorkingMemoryRecord (max known: 1)"
    );
}

#[test]
fn older_schema_is_migrated_first() {
    let manager = hydration();
    let old = || {
        // Busy, but that is not looked at before the record is of the latest schema.
        let mut old = state(AgentLifecycleStatus::Active, 4, Some(at(1_000)));
        old.schema_version = 0;
        old
    };
    let run = manager.hydrate("t", "a").unwrap();
    let refused = manager.state_fetched_at(run, Ok(Some(old())), &none(), 1_000).unwrap_err();
    assert!(matches!(refused, StateError::UnsupportedSchemaVersion { found: 0, .. }));

    let mut migrations = none();
    migrations.register(0, 1);
    let pending = || {
        let run = manager.hydrate("t", "a").unwrap();
        match manager.state_fetched_at(run, Ok(Some(old())), &migrations, 1_000).unwrap() {
            StateStep::Migrate(pending) => pending,
            StateStep::Read(_) => panic!("the record is old"),
        }
    };
    assert_eq!((pending().from, pending().to), (0, 1));
    let failed = Err(StateError::ProtoError("bad".to_string()));
    assert!(matches!(
        manager.state_migrated_at(pending(), failed, &migrations, 1_000),
        Err(StateError::ProtoError(_))
    ));
    let migrated = || Ok(state(AgentLifecycleStatus::Active, 4, Some(at(1_000))));
    assert!(matches!(
        manager.state_migrated_at(pending(), migrated(), &migrations, 1_000),
        Err(StateError::AgentBusy { .. })
    ));
    let next = read(manager.state_migrated_at(pending(), migrated(), &migrations, 2_000));
    assert_eq!(next.state.schema_version, 1);
    assert!(manager.state_migrated(pending(), migrated(), &migrations).is_ok());
}

fn memory_read(manager: &AgentHydrationManager) -> MemoryRead {
    let run = manager.hydrate("t", "a").unwrap();
    let frozen = Ok(Some(state(AgentLifecycleStatus::Frozen, 4, None)));
    read(manager.state_fetched_at(run, frozen, &none(), 0))
}

fn old_memory(version: u64) -> WorkingMemoryRecord {
    let mut old = memory(version);
    old.schema_version = 0;
    old
}

fn from_zero(to: u32) -> MigrationRegistry {
    let mut migrations = MigrationRegistry::new();
    migrations.register(0, to);
    migrations
}

fn pending(step: Result<HydrationStep, StateError>) -> PendingMemory {
    match step.unwrap() {
        HydrationStep::Migrate(pending) => pending,
        _ => panic!("the working memory is old"),
    }
}

fn torn_recovery(manager: &AgentHydrationManager) -> Recovery {
    match manager.memory_fetched(memory_read(manager), Ok(Some(memory(9))), &none()).unwrap() {
        HydrationStep::Recover(recovery) => recovery,
        _ => panic!("the records do not fit"),
    }
}

#[test]
fn older_working_memory_is_migrated_first() {
    let manager = hydration();
    let fetched = |version: u64, migrations: &MigrationRegistry| {
        manager.memory_fetched(memory_read(&manager), Ok(Some(old_memory(version))), migrations)
    };
    assert_eq!(
        fetched(4, &none()).unwrap_err().message(),
        "unsupported schema version 0 for record type WorkingMemoryRecord (max known: 1)"
    );
    let migrations = from_zero(1);
    // Migrated before it is compared with the state.
    let first = pending(fetched(5, &migrations));
    assert_eq!((first.from, first.to), (0, 1));
    assert!(matches!(first.source, MemorySource::Stored(_)));
    let step = manager.memory_migrated(first, Ok(Some(memory(4))), &migrations).unwrap();
    let hydrated = complete(step);
    assert_eq!(hydrated.working_memory.version, 4);
    assert!(!hydrated.recovered_from_checkpoint);

    let first = pending(fetched(4, &migrations));
    let step = manager.memory_migrated(first, Ok(Some(memory(6))), &migrations).unwrap();
    assert!(matches!(
        step,
        HydrationStep::Recover(recovery) if recovery.torn_version == Some(6)
    ));
    let first = pending(fetched(4, &migrations));
    let failed = Err(StateError::ProtoError("bad".to_string()));
    assert!(matches!(
        manager.memory_migrated(first, failed, &migrations),
        Err(StateError::ProtoError(_))
    ));
}

#[test]
fn untouched_working_memory_keeps_its_content() {
    let manager = hydration();
    let migrations = from_zero(1);
    let old = Ok(Some(old_memory(4)));
    let first = pending(manager.memory_fetched(memory_read(&manager), old, &migrations));
    let hydrated = complete(manager.memory_migrated(first, Ok(None), &migrations).unwrap());
    assert_eq!(hydrated.working_memory.schema_version, 1);
    assert_eq!(hydrated.working_memory.version, 4);
    assert_eq!(hydrated.working_memory.other_fields, vec![9]);
}

#[test]
fn working_memory_is_migrated_step_by_step() {
    let manager = hydration();
    let standing = from_zero(0);
    let old = Ok(Some(old_memory(4)));
    let first = pending(manager.memory_fetched(memory_read(&manager), old, &standing));
    let second = pending(manager.memory_migrated(first, Ok(Some(old_memory(4))), &standing));
    assert_eq!((second.from, second.to), (0, 0));
    assert!(matches!(
        manager.memory_migrated(second, Ok(None), &none()),
        Err(StateError::UnsupportedSchemaVersion { found: 0, .. })
    ));
}

#[test]
fn recovered_working_memory_is_migrated() {
    let manager = hydration();
    let migrations = from_zero(1);
    let old = || {
        let mut old = recovered(3, 3);
        old.working_memory.schema_version = 0;
        Ok(old)
    };
    let recover = |migrations: &MigrationRegistry| {
        manager.memory_recovered(torn_recovery(&manager), old(), migrations)
    };
    let first = pending(recover(&migrations));
    assert!(matches!(first.source, MemorySource::Recovered { .. }));
    let step = manager.memory_migrated(first, Ok(Some(memory(3))), &migrations).unwrap();
    let hydrated = complete(step);
    assert!(hydrated.recovered_from_checkpoint);
    assert_eq!(hydrated.state.working_memory_version, 3);
    assert_eq!(hydrated.working_memory.version, 3);
    // What stands in the way of the recovery is reported as the torn write behind it.
    assert!(matches!(
        recover(&none()),
        Err(StateError::TornWrite { state_version: 4, memory_version: 9, .. })
    ));
    let first = pending(recover(&migrations));
    let failed = Err(StateError::ProtoError("bad".to_string()));
    assert!(matches!(
        manager.memory_migrated(first, failed, &migrations),
        Err(StateError::TornWrite { state_version: 4, memory_version: 9, .. })
    ));
}

#[test]
fn recovered_records_must_be_of_a_known_schema() {
    let manager = hydration();
    let missing = || {
        let run = manager.hydrate("t", "a").unwrap();
        let frozen = Ok(Some(state(AgentLifecycleStatus::Frozen, 4, None)));
        let next = read(manager.state_fetched_at(run, frozen, &none(), 0));
        match manager.memory_fetched(next, Ok(None), &none()).unwrap() {
            HydrationStep::Recover(recovery) => recovery,
            _ => panic!("there is no memory"),
        }
    };
    let mut old_state = recovered(4, 4);
    old_state.state.schema_version = 0;
    assert!(matches!(
        manager.memory_recovered(missing(), Ok(old_state), &none()),
        Err(StateError::UnsupportedSchemaVersion { found: 0, .. })
    ));
    let mut new_memory = recovered(4, 4);
    new_memory.working_memory.schema_version = 9;
    let refused = manager.memory_recovered(missing(), Ok(new_memory), &none()).unwrap_err();
    assert_eq!(
        refused.message(),
        "unsupported schema version 9 for record type WorkingMemoryRecord (max known: 1)"
    );
}

fn sealed(content: &[u8]) -> Option<EncryptionEnvelope> {
    let key = InMemoryKeyProvider::new_test().get_key("").unwrap();
    let mut envelope = encrypt(content, &key, AadBinding { encoded: b"a".to_vec() }).unwrap();
    envelope.key_id = "k1".to_string();
    Some(envelope)
}

fn sealed_agent(
    state_content: Option<EncryptionEnvelope>,
    memory_content: Option<EncryptionEnvelope>,
) -> SealedAgent {
    let manager = hydration();
    let run = manager.hydrate("t", "a").unwrap();
    let mut stored = state(AgentLifecycleStatus::Frozen, 4, None);
    stored.encryption = state_content;
    let next = read(manager.state_fetched_at(run, Ok(Some(stored)), &none(), 0));
    let mut mem = memory(4);
    mem.encryption = memory_content;
    match manager.memory_fetched(next, Ok(Some(mem)), &none()).unwrap() {
        HydrationStep::Decrypt(sealed) => sealed,
        _ => panic!("the content is sealed"),
    }
}

fn test_key() -> Result<EncryptionKey, StateError> {
    InMemoryKeyProvider::new_test().get_key("k1")
}

fn no_key() -> Result<EncryptionKey, StateError> {
    Err(StateError::Storage("vault down".to_string()))
}

#[test]
fn sealed_records_are_opened() {
    let manager = hydration();
    let agent = sealed_agent(sealed(b"state"), sealed(b"memory"));
    assert_eq!(agent.state_key_id(), Some("k1"));
    assert_eq!(agent.memory_key_id(), Some("k1"));
    let hydrated = manager.keys_fetched(agent, test_key(), test_key()).unwrap();
    let content = hydrated.state.encryption.unwrap();
    assert_eq!(content.scheme, EncryptionScheme::Plaintext);
    assert_eq!(content.ciphertext, b"state");
    assert_eq!(content.key_id, "k1");
    assert_eq!(hydrated.working_memory.encryption.unwrap().ciphertext, b"memory");
    assert_eq!(hydrated.state.working_memory_version, 4);

    let agent = sealed_agent(None, sealed(b"memory"));
    assert_eq!(agent.state_key_id(), None);
    let hydrated = manager.keys_fetched(agent, no_key(), test_key()).unwrap();
    assert!(hydrated.state.encryption.is_none());
}

#[test]
fn missing_key_refuses_the_hydration() {
    let manager = hydration();
    let refused = manager
        .keys_fetched(sealed_agent(sealed(b"state"), None), no_key(), test_key())
        .unwrap_err();
    assert_eq!(
        refused.message(),
        "encryption key k1 unavailable for agent a: storage error: vault down"
    );
    assert!(matches!(
        manager.keys_fetched(sealed_agent(None, sealed(b"m")), test_key(), no_key()),
        Err(StateError::EncryptionKeyUnavailable { .. })
    ));
    assert!(matches!(
        manager.keys_fetched(sealed_agent(sealed(b"s"), sealed(b"m")), test_key(), no_key()),
        Err(StateError::EncryptionKeyUnavailable { .. })
    ));
    let mut changed = sealed(b"s");
    changed.as_mut().unwrap().ciphertext[0] ^= 1;
    assert!(matches!(
        manager.keys_fetched(sealed_agent(changed, sealed(b"m")), test_key(), no_key()),
        Err(StateError::AesGcmError)
    ));
}

#[test]
fn content_that_does_not_open_refuses_the_hydration() {
    let manager = hydration();
    let mut changed = sealed(b"state");
    changed.as_mut().unwrap().ciphertext[0] ^= 1;
    assert!(matches!(
        manager.keys_fetched(sealed_agent(changed, None), test_key(), no_key()),
        Err(StateError::AesGcmError)
    ));
    let mut short = sealed(b"state");
    short.as_mut().unwrap().iv_or_nonce.pop();
    assert!(matches!(
        manager.keys_fetched(sealed_agent(short, None), test_key(), no_key()),
        Err(StateError::AesGcmError)
    ));
    let fhe = Ok(EncryptionKey::FheTfheRs(Box::new(Vec::new())));
    assert!(matches!(
        manager.keys_fetched(sealed_agent(sealed(b"state"), None), fhe, no_key()),
        Err(StateError::InvalidInput(_))
    ));
}

#[test]
fn plaintext_content_needs_no_key() {
    let manager = hydration();
    let run = manager.hydrate("t", "a").unwrap();
    let mut stored = state(AgentLifecycleStatus::Frozen, 4, None);
    let mut plain = sealed(b"x");
    plain.as_mut().unwrap().scheme = EncryptionScheme::Plaintext;
    stored.encryption = plain;
    let next = read(manager.state_fetched_at(run, Ok(Some(stored)), &none(), 0));
    complete(manager.memory_fetched(next, Ok(Some(memory(4))), &none()).unwrap());
}

fn second_write() -> af_swarm::freeze::StateWrite {
    let first = freezing().freeze_at(input("t", "a"), at(0)).unwrap();
    freezing().memory_written_at(first, vec![3], Ok(etag("m2")), at(0)).unwrap()
}

fn checkpoint_number(greatest: Result<Option<u64>, StateError>, now: u64) -> u64 {
    let write = freezing()
        .state_written_at(second_write(), vec![], Ok(etag("s2")), greatest, now, at(0))
        .unwrap();
    assert_eq!(write.key, af_swarm::checkpoint_key("t", "a", write.record.checkpoint_seq));
    write.record.checkpoint_seq
}

#[test]
fn checkpoint_numbers_are_not_used_twice() {
    assert_eq!(checkpoint_number(Ok(None), 100), 100);
    assert_eq!(checkpoint_number(Ok(Some(99)), 100), 100);
    assert_eq!(checkpoint_number(Ok(Some(100)), 100), 101);
    assert_eq!(checkpoint_number(Ok(Some(250)), 100), 251);
    assert_eq!(checkpoint_number(Ok(Some(u64::MAX - 1)), 100), u64::MAX);
}

#[test]
fn checkpoint_is_numbered_by_the_time_if_no_other_number_is_known() {
    let unknown = Err(StateError::DaprError("down".to_string()));
    assert_eq!(checkpoint_number(unknown, 100), 100);
    assert_eq!(checkpoint_number(Ok(Some(u64::MAX)), 100), 100);
    assert_eq!(AgentFreezeManager::next_checkpoint_seq(5, Some(u64::MAX)), 5);
}

#[test]
fn greatest_number_is_found() {
    assert_eq!(greatest_seq(&Vec::new()), None);
    let key = |seq: u64| af_swarm::checkpoint_key("t", "a", seq);
    assert_eq!(greatest_seq(&vec![key(5), key(u64::MAX), key(7)]), Some(u64::MAX));
    assert_eq!(greatest_seq(&vec!["t||a||state".to_string(), key(0)]), Some(0));
    assert_eq!(greatest_seq(&vec!["t||a||state".to_string()]), None);
}

#[test]
fn checkpoint_key_gives_its_number_back() {
    for seq in [0, 9, 10, 1_700_000_000, u64::MAX] {
        let key = af_swarm::checkpoint_key("tenant", "agent", seq);
        assert_eq!(af_swarm::keys::checkpoint_key_seq(&key), Some(seq));
    }
    for bad in ["", "1", "x0000000000000000001", "t||99999999999999999999", "ü000000000000000000a"] {
        assert_eq!(af_swarm::keys::checkpoint_key_seq(bad), None);
    }
}
