use af_swarm::agent::{
    AgentConfig, AgentId, AgentLifecycleState, Capability, CorrelationId, InferenceTier, TaskId,
    TaskPriority, HYDRATION_TIMEOUT_SECS,
};
use af_swarm::agent_error::{
    AgentError, DaprError, FreezeError, HydrationError, MigrationError, StateError,
};
use af_swarm::backpressure::{
    BackpressureStatus, MemoryPressureLevel, CRITICAL_L3_FILL_BITS, INFINITY_BITS,
    THROTTLE_L3_FILL_BITS,
};
use af_swarm::snapshot::{SnapshotMigrationRegistry, CURRENT_SNAPSHOT_VERSION};
use serde_json::Value;

fn status(count: usize, limit: usize, fill: f32) -> BackpressureStatus {
    BackpressureStatus {
        active_agent_count: count,
        active_agent_limit: limit,
        l3_egress_buffer_fill_bits: fill.to_bits(),
        pending_hydrations: 0,
        memory_pressure: MemoryPressureLevel::NoPressure,
    }
}

#[test]
fn threshold_bits_are_those_of_the_fractions() {
    assert_eq!(THROTTLE_L3_FILL_BITS, 0.85f32.to_bits());
    assert_eq!(CRITICAL_L3_FILL_BITS, 0.95f32.to_bits());
    assert_eq!(INFINITY_BITS, f32::INFINITY.to_bits());
}

#[test]
fn active_agents_throttle_above_eighty_percent() {
    assert!(!status(80, 100, 0.0).should_throttle());
    assert!(status(81, 100, 0.0).should_throttle());
    assert!(!status(0, 0, 0.0).should_throttle());
    assert!(status(1, 0, 0.0).should_throttle());
    assert!(!status(4, 5, 0.0).should_throttle());
    assert!(status(5, 5, 0.0).should_throttle());
}

#[test]
fn active_agents_are_critical_above_ninety_five_percent() {
    assert!(!status(95, 100, 0.0).is_critical());
    assert!(status(96, 100, 0.0).is_critical());
    assert!(!status(19, 20, 0.0).is_critical());
    assert!(status(20, 20, 0.0).is_critical());
    assert!(status(usize::MAX, usize::MAX, 0.0).is_critical());
}

#[test]
fn buffer_fill_is_compared_as_a_number() {
    for fill in [0.0f32, -0.0, 0.5, 0.84, 0.85, 0.8500001, 0.9, 0.95, 0.96, 1.0, 7.5, -1.0] {
        assert_eq!(status(0, 100, fill).should_throttle(), fill > 0.85f32);
        assert_eq!(status(0, 100, fill).is_critical(), fill > 0.95f32);
    }
    assert!(status(0, 100, f32::INFINITY).is_critical());
    assert!(!status(0, 100, f32::NEG_INFINITY).should_throttle());
    assert!(!status(0, 100, f32::NAN).should_throttle());
}

#[test]
fn critical_pressure_throttles_too() {
    for count in 0..120 {
        for fill in [0.0f32, 0.9, 0.97] {
            let status = status(count, 100, fill);
            assert!(!status.is_critical() || status.should_throttle());
        }
    }
}

#[test]
fn ids_are_random_uuids() {
    let a = AgentId::new();
    let b = AgentId::default();
    assert_ne!(a, b);
    for bytes in [a.0, b.0, TaskId::new().0, TaskId::default().0] {
        assert_eq!(bytes[6] >> 4, 4);
        assert_eq!(bytes[8] >> 6, 2);
    }
    assert_ne!(TaskId::new(), TaskId::new());
}

#[test]
fn agent_id_has_its_exact_text() {
    let id = AgentId([
        0x12, 0x3e, 0x45, 0x67, 0xe8, 0x9b, 0x4d, 0x12, 0xa4, 0x56, 0x42, 0x66, 0x14, 0x17, 0x40,
        0x00,
    ]);
    assert_eq!(id.to_text(), "agent:123e4567-e89b-4d12-a456-426614174000");
    assert_eq!(CorrelationId(id.0).0, id.0);
}

#[test]
fn different_agents_have_different_texts() {
    let mut bytes = [0u8; 16];
    let zero = AgentId(bytes).to_text();
    for i in 0..16 {
        bytes[i] = 1;
        assert_ne!(AgentId(bytes).to_text(), zero);
        bytes[i] = 0;
    }
}

#[test]
fn defaults_of_an_agent() {
    let config = AgentConfig::default();
    assert_eq!(config.persona, "unnamed");
    assert!(config.capabilities.is_empty());
    assert_eq!(config.max_tools, 16);
    assert_eq!(config.max_context_tokens, 128_000);
    assert_eq!(config.idle_ttl_secs, 300);
    assert_eq!(config.inference_tier, InferenceTier::Open);
    assert_eq!(TaskPriority::default(), TaskPriority::Normal);
    assert!(TaskPriority::Low < TaskPriority::Normal && TaskPriority::Normal < TaskPriority::High);
    assert_eq!(HYDRATION_TIMEOUT_SECS, 15);
    assert_ne!(AgentLifecycleState::Frozen, AgentLifecycleState::Active);
    assert_ne!(Capability("a".to_string()), Capability("b".to_string()));
}

#[test]
fn agent_errors_have_their_texts() {
    let s = |text: &str| text.to_string();
    assert_eq!(
        AgentError::Panic { backtrace: s("at x") }.message(),
        "agent panicked during message handling: at x"
    );
    assert_eq!(AgentError::TaskFailed { reason: s("r") }.message(), "task failed: r");
    assert_eq!(
        AgentError::LifecycleCommandFailed { reason: s("r") }.message(),
        "lifecycle command failed: r"
    );
    assert_eq!(AgentError::Internal(s("r")).message(), "internal error: r");
    let missing = || StateError::NotFound { agent_id: s("a") };
    assert_eq!(
        HydrationError::StateReadFailed(missing()).message(),
        "failed to read snapshot from state store: agent not found in state store: a"
    );
    assert_eq!(
        HydrationError::DeserializationFailed { snapshot_version: 3, reason: s("r") }.message(),
        "failed to deserialize snapshot (version 3): r"
    );
    assert_eq!(
        HydrationError::MigrationFailed { from_version: 0, to_version: 1, reason: s("r") }
            .message(),
        "snapshot migration failed from v0 to v1: r"
    );
    assert_eq!(
        HydrationError::Timeout { elapsed_ms: 15_000 }.message(),
        "hydration timeout after 15000ms"
    );
    assert_eq!(
        FreezeError::SerializationFailed { reason: s("r") }.message(),
        "failed to serialize snapshot: r"
    );
    assert_eq!(
        FreezeError::StateWriteFailed(DaprError::Unavailable { reason: s("r") }).message(),
        "failed to write snapshot to state store: state store unavailable: r"
    );
    assert_eq!(
        FreezeError::ETagConflict.message(),
        "ETag conflict on freeze — concurrent write detected"
    );
    assert_eq!(
        DaprError::ETagMismatch { agent_id: s("a") }.message(),
        "ETag mismatch: concurrent write detected for agent a"
    );
    assert_eq!(DaprError::Transport(s("t")).message(), "transport error: t");
    assert_eq!(DaprError::Internal(s("i")).message(), "internal error: i");
    assert_eq!(
        MigrationError::StepFailed { from_version: 1, to_version: 2, reason: s("r") }.message(),
        "migration step failed (v1 → v2): r"
    );
}

type Migration = Box<dyn Fn(Value) -> Value>;

#[test]
fn current_snapshot_stays_as_it_is() {
    let registry: SnapshotMigrationRegistry<Migration> = SnapshotMigrationRegistry::default();
    let raw = Value::from("snapshot");
    assert_eq!(registry.migrate(raw.clone(), CURRENT_SNAPSHOT_VERSION).unwrap(), raw);
}

#[test]
fn older_snapshot_is_migrated() {
    let mut registry: SnapshotMigrationRegistry<Migration> = SnapshotMigrationRegistry::new();
    registry.register(0, 1, Box::new(|raw| Value::from(vec![raw])));
    assert_eq!(
        registry.migrate(Value::from(7), 0).unwrap(),
        Value::from(vec![Value::from(7)])
    );
}

#[test]
fn last_registration_counts() {
    let mut registry: SnapshotMigrationRegistry<Migration> = SnapshotMigrationRegistry::new();
    registry.register(0, 1, Box::new(|_| Value::from("first")));
    registry.register(0, 1, Box::new(|_| Value::from("second")));
    assert_eq!(registry.migrate(Value::from(7), 0).unwrap(), Value::from("second"));
}

#[test]
fn missing_way_is_reported() {
    let mut registry: SnapshotMigrationRegistry<Migration> = SnapshotMigrationRegistry::new();
    // Ways past the current version, or back to it, do not count.
    registry.register(0, 2, Box::new(|raw| raw));
    registry.register(2, 1, Box::new(|raw| raw));
    registry.register(0, 0, Box::new(|raw| raw));
    for from in [0u32, 2, u32::MAX] {
        let refused = registry.migrate(Value::from(7), from).unwrap_err();
        assert!(matches!(
            refused,
            MigrationError::NoMigrationPath { from_version, to_version: 1 } if from_version == from
        ));
    }
    assert_eq!(
        registry.migrate(Value::from(7), 2).unwrap_err().message(),
        "no migration path from v2 to v1"
    );
}
