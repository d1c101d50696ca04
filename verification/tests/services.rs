use af_swarm::budget::{ClaudeBudgetGate, WINDOW_DURATION_SECS};
use af_swarm::client::{
    AttemptFailure, ClientError, InferenceClusterClient, DEADLINE_CLASSIFICATION_S,
    DEADLINE_ORCHESTRATION_S, DEADLINE_STANDARD_S, MAX_RETRIES,
};
use af_swarm::error::StateError;
use af_swarm::gc::{AgentRecords, GcConfig, GcRunner, StoredCheckpoint, StoredEntry};
use af_swarm::lance_schema::{
    agent_memory_embedding_model, DistanceMetric, AGENTS_MEMORY_TABLE,
};
use af_swarm::metrics::ClusterMetrics;
use af_swarm::migrations::{MigrationAction, MigrationRegistry};
use af_swarm::proto::{CircuitBreakerState, TaskType};
use af_swarm::store::DaprStateStore;
use af_swarm::text::{decimal_text, padded_text};
use af_swarm::{
    LATEST_SCHEMA_VERSION, MAX_GOAL_STACK_DEPTH, MAX_PINNED_FACTS, MAX_WORKING_MEMORY_SLOTS,
};
use prometheus::Registry;

#[test]
fn budget_is_open_until_a_limit_is_reached() {
    let mut gate = ClaudeBudgetGate::new(100, 40);
    assert!(gate.has_capacity("a"));
    gate.record_usage("a", 39);
    assert!(gate.has_capacity("a"));
    gate.record_usage("a", 1);
    assert!(!gate.has_capacity("a"));
    assert!(gate.has_capacity("b"));
    gate.record_usage("b", 39);
    gate.record_usage("c", 21);
    // The global limit binds everyone.
    assert!(!gate.has_capacity("b"));
    assert!(!gate.has_capacity("new"));
}

#[test]
fn new_window_restores_the_budget() {
    let mut gate = ClaudeBudgetGate::new(100, 40);
    gate.record_usage("a", 100);
    assert!(!gate.has_capacity_after("a", WINDOW_DURATION_SECS - 1));
    assert!(gate.has_capacity_after("a", WINDOW_DURATION_SECS));
    assert!(gate.has_capacity_after("a", 0));
    gate.record_usage("a", 40);
    assert!(!gate.has_capacity_after("a", 0));
}

#[test]
fn tenant_stays_known_across_windows() {
    let mut gate = ClaudeBudgetGate::new(100, 0);
    assert!(gate.has_capacity("a"));
    gate.record_usage("a", 1);
    assert!(!gate.has_capacity_after("a", WINDOW_DURATION_SECS));
    assert!(gate.has_capacity_after("b", 0));
}

#[test]
fn count_starts_again_after_the_largest() {
    let mut gate = ClaudeBudgetGate::new(10, 10);
    gate.record_usage("a", u64::MAX);
    assert!(!gate.has_capacity("a"));
    gate.record_usage("a", 1);
    assert!(gate.has_capacity("a"));
}

#[test]
fn deadlines_depend_on_the_task() {
    let deadline = InferenceClusterClient::deadline_for_task;
    assert_eq!(deadline(TaskType::Classification), 5);
    assert_eq!(deadline(TaskType::Orchestration), 120);
    assert_eq!(deadline(TaskType::Reasoning), 120);
    assert_eq!(deadline(TaskType::Unspecified), 60);
    assert_eq!(deadline(TaskType::Other(42)), 60);
    assert_eq!(DEADLINE_CLASSIFICATION_S, 5);
    assert_eq!(DEADLINE_STANDARD_S, 60);
    assert_eq!(DEADLINE_ORCHESTRATION_S, 120);
}

#[test]
fn endpoint_must_be_a_uri() {
    let client = InferenceClusterClient::connect("http://inference.cluster.internal:50051").unwrap();
    assert_eq!(client.circuit_state(), CircuitBreakerState::Closed);
    assert_eq!(
        client.endpoint().uri().to_string(),
        "http://inference.cluster.internal:50051/"
    );
    let refused = InferenceClusterClient::connect("not a uri").unwrap_err();
    assert!(matches!(refused, ClientError::Transport(_)));
    assert_eq!(refused.message(), "transport error: transport error");
}

fn client() -> InferenceClusterClient {
    InferenceClusterClient::connect("http://localhost:50051").unwrap()
}

#[test]
fn busy_cluster_is_tried_again_with_longer_waits() {
    let client = client();
    let mut attempt = client.infer("kimi", TaskType::Classification).unwrap();
    assert_eq!((attempt.retries, attempt.wait_ms, attempt.deadline_s), (0, 0, 5));
    let mut waits = Vec::new();
    for _ in 0..MAX_RETRIES {
        attempt = client.attempt_failed(attempt, AttemptFailure::ClusterFull).unwrap();
        waits.push(attempt.wait_ms);
    }
    assert_eq!(waits, vec![50, 100, 200]);
    assert_eq!(attempt.deadline_s, 5);
    assert!(matches!(
        client.attempt_failed(attempt, AttemptFailure::ClusterFull),
        Err(ClientError::MaxRetriesExceeded)
    ));
    assert!(matches!(
        client.attempt_failed(attempt, AttemptFailure::Internal),
        Err(ClientError::MaxRetriesExceeded)
    ));
}

#[test]
fn other_failures_are_not_tried_again() {
    let client = client();
    let attempt = client.infer("kimi", TaskType::Reasoning).unwrap();
    assert!(client.attempt_failed(attempt, AttemptFailure::Internal).is_ok());
    assert!(matches!(
        client.attempt_failed(attempt, AttemptFailure::DeadlineExceeded),
        Err(ClientError::Timeout { timeout_ms: 120_000 })
    ));
    assert!(matches!(
        client.attempt_failed(attempt, AttemptFailure::Status("denied".to_string())),
        Err(ClientError::Status(status)) if status == "denied"
    ));
    assert!(matches!(
        client.attempt_failed(attempt, AttemptFailure::Transport("reset".to_string())),
        Err(ClientError::Transport(reason)) if reason == "reset"
    ));
}

#[test]
fn statuses_stand_for_failures() {
    let of = |code: tonic::Code| AttemptFailure::from_status(i32::from(code), "x".to_string());
    assert!(matches!(of(tonic::Code::ResourceExhausted), AttemptFailure::ClusterFull));
    assert!(matches!(of(tonic::Code::Internal), AttemptFailure::Internal));
    assert!(matches!(of(tonic::Code::DeadlineExceeded), AttemptFailure::DeadlineExceeded));
    for code in [tonic::Code::Unavailable, tonic::Code::PermissionDenied, tonic::Code::Unknown] {
        assert!(matches!(of(code), AttemptFailure::Status(text) if text == "x"));
    }
}

#[test]
fn open_circuit_sends_nothing() {
    let mut client = client();
    client.set_circuit_state(CircuitBreakerState::Open);
    assert_eq!(client.circuit_state(), CircuitBreakerState::Open);
    assert!(matches!(
        client.infer("kimi", TaskType::Other(3)),
        Err(ClientError::CircuitOpen { model }) if model == "kimi"
    ));
    client.set_circuit_state(CircuitBreakerState::HalfOpen);
    assert_eq!(client.infer("kimi", TaskType::Other(3)).unwrap().deadline_s, 60);
}

#[test]
fn client_errors_have_their_texts() {
    let s = |text: &str| text.to_string();
    assert_eq!(ClientError::Status(s("x")).message(), "gRPC status: x");
    assert_eq!(
        ClientError::ClusterFull.message(),
        "cluster full — all model slots occupied"
    );
    assert_eq!(
        ClientError::BudgetExhausted { tenant_id: s("t") }.message(),
        "budget exhausted for tenant t"
    );
    assert_eq!(
        ClientError::CircuitOpen { model: s("m") }.message(),
        "circuit breaker open for model m"
    );
    assert_eq!(
        ClientError::Timeout { timeout_ms: 500 }.message(),
        "inference timeout after 500ms"
    );
    assert_eq!(ClientError::MaxRetriesExceeded.message(), "max retries (3) exceeded");
}

#[test]
fn state_errors_have_their_texts() {
    let s = |text: &str| text.to_string();
    assert_eq!(
        StateError::EncryptionKeyUnavailable { key_id: s("k"), agent_id: s("a"), source: s("x") }
            .message(),
        "encryption key k unavailable for agent a: x"
    );
    assert_eq!(
        StateError::LanceDbMigrationGap { agent_id: s("a"), missing_count: 3 }.message(),
        "LanceDB migration gap for agent a: 3 record(s) missing"
    );
    assert_eq!(StateError::Storage(s("x")).message(), "storage error: x");
}

fn values(registry: &Registry, family: &str) -> Vec<(Vec<(String, String)>, f64)> {
    let mut found = Vec::new();
    for metrics in registry.gather() {
        if metrics.get_name() == family {
            for metric in metrics.get_metric() {
                let labels = metric
                    .get_label()
                    .iter()
                    .map(|pair| (pair.get_name().to_string(), pair.get_value().to_string()))
                    .collect();
                // The one that the metric is not reads as zero.
                let value = metric.get_counter().get_value() + metric.get_gauge().get_value();
                found.push((labels, value));
            }
        }
    }
    found
}

#[test]
fn requests_are_counted() {
    let registry = Registry::new();
    let mut metrics = ClusterMetrics::new(&registry).unwrap();
    metrics.record("coder", "acme", "kimi", "reasoning", "PUBLIC", "ok", 10, 20, 1_500_000);
    metrics.record("coder", "acme", "kimi", "reasoning", "PUBLIC", "ok", 1, 2, 3);
    metrics.record("coder", "acme", "kimi", "reasoning", "PUBLIC", "failed", 0, 0, 0);
    let pair = |name: &str, value: &str| (name.to_string(), value.to_string());
    let mut requests = values(&registry, "inference_requests_total");
    requests.sort_by(|a, b| a.1.partial_cmp(&b.1).unwrap());
    assert_eq!(requests.len(), 2);
    assert_eq!(requests[0].1, 1.0);
    assert_eq!(requests[1].1, 2.0);
    assert_eq!(
        requests[1].0,
        vec![
            pair("agent_type", "coder"),
            pair("model", "kimi"),
            pair("sensitivity", "PUBLIC"),
            pair("status", "ok"),
            pair("task_type", "reasoning"),
            pair("tenant_id", "acme"),
        ]
    );
    assert_eq!(values(&registry, "inference_tokens_in_total")[0].1, 11.0);
    assert_eq!(values(&registry, "inference_tokens_out_total")[0].1, 22.0);
    assert_eq!(values(&registry, "inference_cost_usd_micros_total")[0].1, 1_500_003.0);
}

#[test]
fn labels_that_spell_the_same_share_a_counter() {
    let registry = Registry::new();
    let mut metrics = ClusterMetrics::new(&registry).unwrap();
    metrics.record("a", "bc", "m", "t", "s", "ok", 1, 0, 0);
    metrics.record("ab", "c", "m", "t", "s", "ok", 2, 0, 0);
    let tokens = values(&registry, "inference_tokens_in_total");
    assert_eq!(tokens.len(), 1);
    assert_eq!(tokens[0].1, 3.0);
}

#[test]
fn labels_of_one_hash_share_a_gauge() {
    let registry = Registry::new();
    let mut metrics = ClusterMetrics::new(&registry).unwrap();
    // Two texts with the same 64-bit FNV-1a hash.
    metrics.set_circuit_breaker_state("8yn0iYCKYHlIj4-BwPqk", CircuitBreakerState::HalfOpen);
    metrics.set_circuit_breaker_state("GReLUrM4wMqfg9yzV3KQ", CircuitBreakerState::Open);
    metrics.set_circuit_breaker_state("kimi", CircuitBreakerState::Closed);
    let mut states: Vec<f64> =
        values(&registry, "inference_circuit_breaker_state").iter().map(|v| v.1).collect();
    states.sort_by(|a, b| a.partial_cmp(b).unwrap());
    assert_eq!(states, vec![0.0, 2.0]);
}

#[test]
fn gauges_take_the_last_value() {
    let registry = Registry::new();
    let mut metrics = ClusterMetrics::new(&registry).unwrap();
    metrics.set_budget_remaining_tokens("acme", "kimi", 100);
    metrics.set_budget_remaining_tokens("acme", "kimi", -5);
    metrics.set_active_sequences("kimi", "r1", 7);
    metrics.set_circuit_breaker_state("kimi", CircuitBreakerState::HalfOpen);
    assert_eq!(values(&registry, "inference_budget_remaining_tokens")[0].1, -5.0);
    assert_eq!(values(&registry, "inference_cluster_active_sequences")[0].1, 7.0);
    assert_eq!(values(&registry, "inference_circuit_breaker_state")[0].1, 1.0);
    metrics.set_circuit_breaker_state("kimi", CircuitBreakerState::Open);
    assert_eq!(values(&registry, "inference_circuit_breaker_state")[0].1, 2.0);
    metrics.set_circuit_breaker_state("kimi", CircuitBreakerState::Closed);
    assert_eq!(values(&registry, "inference_circuit_breaker_state")[0].1, 0.0);
}

#[test]
fn metrics_register_once() {
    let registry = Registry::new();
    assert!(ClusterMetrics::new(&registry).is_ok());
    assert!(ClusterMetrics::new(&registry).is_err());
    assert!(ClusterMetrics::unregistered().is_ok());
}

#[test]
fn latest_schema_needs_no_migration() {
    let registry = MigrationRegistry::default();
    assert_eq!(LATEST_SCHEMA_VERSION, 1);
    assert_eq!(registry.apply_to_latest(1).unwrap(), MigrationAction::Decode);
}

#[test]
fn unknown_schema_is_refused() {
    let registry = MigrationRegistry::with_all_migrations();
    let future = registry.apply_to_latest(2).unwrap_err();
    assert_eq!(
        future.message(),
        "unsupported schema version 2 for record type AgentStateRecord (max known: 1)"
    );
    assert!(matches!(
        registry.apply_to_latest(0),
        Err(StateError::UnsupportedSchemaVersion { found: 0, max_known: 1, .. })
    ));
}

#[test]
fn steps_are_followed() {
    let mut registry = MigrationRegistry::new();
    registry.register(0, 5);
    registry.register(0, 1);
    assert_eq!(
        registry.apply_to_latest(0).unwrap(),
        MigrationAction::Migrate { from: 0, to: 1 }
    );
    assert_eq!(registry.step_applied(1).unwrap(), MigrationAction::Decode);
    // A step may lead past the latest version: its result is decoded.
    assert_eq!(registry.step_applied(5).unwrap(), MigrationAction::Decode);
    assert_eq!(
        registry.next_step("WorkingMemoryRecord", 0).unwrap(),
        MigrationAction::Migrate { from: 0, to: 1 }
    );
    assert_eq!(
        MigrationRegistry::new().next_step("WorkingMemoryRecord", 0).unwrap_err().message(),
        "unsupported schema version 0 for record type WorkingMemoryRecord (max known: 1)"
    );
}

#[test]
fn collection_settings_have_defaults() {
    let config = GcConfig::default();
    assert_eq!(config.max_retained_checkpoints, 5);
    assert!(config.retain_pre_task_checkpoints);
    assert_eq!(config.compliance_retain_days, 0);
    assert_eq!(config.conversation_turn_ttl_days, 30);
    assert_eq!(config.tool_log_ttl_days, 90);
    let runner = GcRunner::new(DaprStateStore::new("statestore"), config);
    assert_eq!(runner.interval_secs(), 300);
    assert_eq!(runner.config(), config);
    assert_eq!(runner.store().store_name(), "statestore");
}

fn runner(config: GcConfig) -> GcRunner {
    GcRunner::new(DaprStateStore::new("statestore"), config)
}

fn records() -> AgentRecords {
    AgentRecords {
        tenant_id: "t".to_string(),
        agent_id: "a".to_string(),
        has_state: true,
        has_memory: true,
        memory_age_secs: None,
        checkpoints: Vec::new(),
        turns: Vec::new(),
        tool_logs: Vec::new(),
    }
}

fn stored(seq: u64, pre_task: bool, age_days: u64) -> StoredCheckpoint {
    StoredCheckpoint { seq, pre_task, age_days }
}

fn entry(id: &str, age_days: u64) -> StoredEntry {
    StoredEntry { id: id.to_string(), age_days }
}

#[test]
fn sweep_keeps_the_newest_checkpoints() {
    let config = GcConfig { max_retained_checkpoints: 2, ..GcConfig::default() };
    let mut records = records();
    records.checkpoints = vec![
        stored(10, false, 9),
        stored(40, false, 1),
        stored(20, true, 8),
        stored(30, false, 7),
        stored(5, false, 9),
    ];
    assert_eq!(
        runner(config).sweep(&records).unwrap(),
        vec![
            "t||a||checkpoint||00000000000000000010",
            "t||a||checkpoint||00000000000000000005",
        ]
    );
    let strict = GcConfig { retain_pre_task_checkpoints: false, ..config };
    assert_eq!(runner(strict).sweep(&records).unwrap().len(), 3);
}

#[test]
fn sweep_counts_equal_numbers_in_order() {
    let config = GcConfig { max_retained_checkpoints: 1, ..GcConfig::default() };
    let mut records = records();
    records.checkpoints = vec![stored(7, false, 0), stored(7, false, 0)];
    assert_eq!(runner(config).sweep(&records).unwrap().len(), 1);
    let none = GcConfig { max_retained_checkpoints: 0, ..config };
    assert_eq!(runner(none).sweep(&records).unwrap().len(), 2);
}

#[test]
fn sweep_respects_the_compliance_window() {
    let config = GcConfig {
        max_retained_checkpoints: 0,
        compliance_retain_days: 100,
        ..GcConfig::default()
    };
    let mut records = records();
    records.memory_age_secs = Some(86_400 * 100 + 86_399);
    records.checkpoints = vec![stored(1, false, 100), stored(2, false, 101)];
    records.turns = vec![entry("x", 100), entry("y", 101)];
    records.tool_logs = vec![entry("x", 100), entry("y", 101)];
    assert_eq!(
        runner(config).sweep(&records).unwrap(),
        vec![
            "t||a||checkpoint||00000000000000000002",
            "t||a||conv||y",
            "t||a||tool_log||y",
        ]
    );
    records.memory_age_secs = Some(86_400 * 101);
    assert_eq!(runner(config).sweep(&records).unwrap()[0], "t||a||working_memory");
}

#[test]
fn sweep_expires_entries_and_memory() {
    let mut records = records();
    records.memory_age_secs = Some(86_400);
    records.turns = vec![entry("old", 31), entry("due", 30)];
    records.tool_logs = vec![entry("old", 91), entry("due", 90)];
    assert_eq!(
        runner(GcConfig::default()).sweep(&records).unwrap(),
        vec!["t||a||conv||old", "t||a||tool_log||old"]
    );
    records.memory_age_secs = Some(86_401);
    assert_eq!(
        runner(GcConfig::default()).sweep(&records).unwrap()[0],
        "t||a||working_memory"
    );
}

#[test]
fn sweep_refuses_bad_ids() {
    let mut bad = records();
    bad.tenant_id = "t||".to_string();
    assert_eq!(
        runner(GcConfig::default()).sweep(&bad).unwrap_err().message(),
        "invalid input: tenant_id must not contain '||': got \"t||\""
    );
    let mut empty = records();
    empty.agent_id = String::new();
    assert_eq!(
        runner(GcConfig::default()).sweep(&empty).unwrap_err().message(),
        "invalid input: agent_id must not be empty"
    );
}

#[test]
fn embedding_model_is_fixed() {
    let model = agent_memory_embedding_model();
    assert_eq!(model.model_name, "sentence-transformers/all-MiniLM-L6-v2");
    assert_eq!(model.dimensions, 384);
    assert_eq!(model.distance_metric, DistanceMetric::Cosine);
    assert_eq!(AGENTS_MEMORY_TABLE, "agents_memory_index");
}

#[test]
fn limits_of_the_state_schema() {
    assert_eq!(MAX_WORKING_MEMORY_SLOTS, 32);
    assert_eq!(MAX_PINNED_FACTS, 64);
    assert_eq!(MAX_GOAL_STACK_DEPTH, 32);
}

#[test]
fn numbers_are_rendered_in_decimal() {
    assert_eq!(decimal_text(0), "0");
    assert_eq!(decimal_text(1_234_567_890), "1234567890");
    assert_eq!(decimal_text(u64::MAX), "18446744073709551615");
    assert_eq!(padded_text(42, 5), "00042");
}

#[test]
fn erasure_deletes_everything_of_a_tenant() {
    let mut first = records();
    first.checkpoints = vec![stored(1, true, 0), stored(2, false, 0)];
    first.turns = vec![entry("x", 0)];
    first.tool_logs = vec![entry("y", 0)];
    let mut second = records();
    second.agent_id = "b".to_string();
    second.has_memory = false;
    let mut other = records();
    other.tenant_id = "u".to_string();
    other.agent_id = "||".to_string();
    let config = GcConfig { compliance_retain_days: 1_000, ..GcConfig::default() };
    let erasure = runner(config).erase_tenant("t", &vec![first, other, second], 12).unwrap();
    assert_eq!(
        erasure.keys,
        vec![
            "t||a||state",
            "t||a||working_memory",
            "t||a||checkpoint||00000000000000000001",
            "t||a||checkpoint||00000000000000000002",
            "t||a||conv||x",
            "t||a||tool_log||y",
            "t||b||state",
        ]
    );
    let report = erasure.report;
    assert_eq!(report.tenant_id, "t");
    assert_eq!(report.agents_deleted, 2);
    assert_eq!(report.state_records_deleted, 3);
    assert_eq!(report.turn_records_deleted, 1);
    assert_eq!(report.tool_log_records_deleted, 1);
    assert_eq!(report.checkpoint_records_deleted, 2);
    assert_eq!(report.checkpoint_records_pending_compliance_hold, 0);
    assert_eq!(report.lancedb_entries_deleted, 12);
}

#[test]
fn erasure_refuses_bad_ids() {
    let gc = runner(GcConfig::default());
    assert_eq!(
        gc.erase_tenant("", &Vec::new(), 0).unwrap_err().message(),
        "invalid input: tenant_id must not be empty"
    );
    let mut bad = records();
    bad.agent_id = "a||b".to_string();
    assert_eq!(
        gc.erase_tenant("t", &vec![records(), bad], 0).unwrap_err().message(),
        "invalid input: agent_id must not contain '||': got \"a||b\""
    );
    assert!(gc.erase_tenant("t", &Vec::new(), 0).unwrap().keys.is_empty());
}

#[test]
fn families_have_their_names_and_help_texts() {
    let registry = Registry::new();
    let mut metrics = ClusterMetrics::new(&registry).unwrap();
    metrics.record("c", "t", "m", "r", "s", "ok", 1, 2, 3);
    metrics.set_budget_remaining_tokens("t", "m", 1);
    metrics.set_active_sequences("m", "r", 1);
    metrics.set_circuit_breaker_state("m", CircuitBreakerState::Open);
    let mut found: Vec<(String, String)> = registry
        .gather()
        .iter()
        .map(|family| (family.get_name().to_string(), family.get_help().to_string()))
        .collect();
    found.sort();
    let pair = |name: &str, help: &str| (name.to_string(), help.to_string());
    assert_eq!(
        found,
        vec![
            pair("inference_budget_remaining_tokens", "API budget remaining (tokens)"),
            pair(
                "inference_circuit_breaker_state",
                "Circuit breaker state: 0=CLOSED, 1=HALF_OPEN, 2=OPEN"
            ),
            pair(
                "inference_cluster_active_sequences",
                "Currently active vLLM sequences per replica"
            ),
            pair(
                "inference_cost_usd_micros_total",
                "Estimated cost in USD × 1,000,000 (integer counter)"
            ),
            pair("inference_requests_total", "Total inference requests"),
            pair("inference_tokens_in_total", "Input tokens consumed"),
            pair("inference_tokens_out_total", "Output tokens generated"),
        ]
    );
}

#[test]
fn counters_and_gauges_register_by_themselves() {
    let registry = Registry::new();
    let metrics = ClusterMetrics::unregistered().unwrap();
    assert!(metrics.register_gauges(&registry).is_ok());
    assert!(metrics.register_counters(&registry).is_ok());
    assert!(metrics.register_gauges(&registry).is_err());
    assert!(metrics.register_counters(&registry).is_err());
}

#[test]
fn usage_adds_up_over_calls() {
    let mut gate = ClaudeBudgetGate::new(100, 50);
    let calls: [(&str, u64); 5] = [("a", 20), ("b", 10), ("a", 29), ("c", 0), ("b", 39)];
    let (mut all, mut of_a) = (0u64, 0u64);
    for (tenant, tokens) in calls {
        gate.record_usage(tenant, tokens);
        all += tokens;
        if tenant == "a" {
            of_a += tokens;
        }
        assert_eq!(gate.has_capacity_after("a", 0), all < 100 && of_a < 50);
    }
    gate.record_usage("a", 1);
    assert!(!gate.has_capacity_after("a", 3599));
    gate.record_usage("b", 0);
    assert!(!gate.has_capacity_after("a", 3599));
}
