use af_swarm::error::StateError;
use af_swarm::store::{DaprStateStore, ETag, WriteReply};
use af_swarm::{
    agent_state_key, checkpoint_key, conversation_turn_key, tool_log_key, working_memory_key,
    KEY_PREFIX, KEY_SEP,
};

#[test]
fn key_format_no_collision() {
    let k1 = agent_state_key("tenant-a", "agent-b");
    let k2 = agent_state_key("tenant-a||agent", "b");
    // An id that contains the separator is refused before it gets here.
    assert_ne!(k1, k2, "keys must be distinct for distinct (tenant, agent) pairs");
}

#[test]
fn checkpoint_key_lexicographic_order() {
    let k1 = checkpoint_key("t1", "a1", 1);
    let k2 = checkpoint_key("t1", "a1", 2);
    let k3 = checkpoint_key("t1", "a1", 100);
    assert!(k1 < k2, "checkpoint keys must sort numerically");
    assert!(k2 < k3, "checkpoint keys must sort numerically");
}

#[test]
fn checkpoint_keys_sort_up_to_the_largest_number() {
    let numbers: [u64; 6] = [0, 9, 10, 99_999, 10_000_000_000, u64::MAX];
    for pair in numbers.windows(2) {
        assert!(checkpoint_key("t", "a", pair[0]) < checkpoint_key("t", "a", pair[1]));
    }
}

#[test]
fn keys_sort_as_what_they_end_in() {
    let ids = ["", "01H", "01H0", "01J", "1", "\u{e9}", "\u{ffff}", "\u{1f600}"];
    for (i, first) in ids.iter().enumerate() {
        for (j, second) in ids.iter().enumerate() {
            let turn = |id: &str| conversation_turn_key("t", "a", id);
            assert_eq!(turn(first) < turn(second), i < j);
            assert_eq!(tool_log_key("t", "a", first) < tool_log_key("t", "a", second), i < j);
            let (m, n) = (i as u64, j as u64);
            assert_eq!(checkpoint_key("t", "a", m) < checkpoint_key("t", "a", n), m < n);
        }
    }
}

#[test]
fn keys_have_their_exact_form() {
    assert_eq!(KEY_SEP, "||");
    assert_eq!(KEY_PREFIX, "afswarm");
    assert_eq!(agent_state_key("t1", "a1"), "t1||a1||state");
    assert_eq!(working_memory_key("t1", "a1"), "t1||a1||working_memory");
    assert_eq!(checkpoint_key("t1", "a1", 7), "t1||a1||checkpoint||00000000000000000007");
    assert_eq!(
        checkpoint_key("t1", "a1", u64::MAX),
        "t1||a1||checkpoint||18446744073709551615"
    );
    assert_eq!(conversation_turn_key("t1", "a1", "01H"), "t1||a1||conv||01H");
    assert_eq!(tool_log_key("t1", "a1", "01J"), "t1||a1||tool_log||01J");
}

#[test]
fn ids_that_straddle_a_separator_share_a_key() {
    assert_eq!(agent_state_key("a|", "b"), agent_state_key("a", "|b"));
}

#[test]
fn ids_are_validated() {
    assert!(DaprStateStore::validate_id("tenant-a", "tenant_id").is_ok());
    assert!(DaprStateStore::validate_id("a|b", "tenant_id").is_ok());
    assert!(DaprStateStore::validate_id("|", "tenant_id").is_ok());
    for bad in ["||", "a||b", "a||", "||b", "|||"] {
        assert!(DaprStateStore::validate_id(bad, "tenant_id").is_err());
    }
    let separator = DaprStateStore::validate_id("a||\"b", "agent_id").unwrap_err();
    assert_eq!(
        separator.message(),
        "invalid input: agent_id must not contain '||': got \"a||\\\"b\""
    );
    let empty = DaprStateStore::validate_id("", "tenant_id").unwrap_err();
    assert_eq!(empty.message(), "invalid input: tenant_id must not be empty");
}

#[test]
fn store_keeps_its_name() {
    assert_eq!(DaprStateStore::new("statestore").store_name(), "statestore");
}

#[test]
fn write_replies_become_outcomes() {
    let written = DaprStateStore::write_outcome("k", WriteReply::Written(ETag("7".to_string())));
    assert_eq!(written.unwrap().0, "7");
    let conflict = DaprStateStore::write_outcome("k", WriteReply::ETagMismatch).unwrap_err();
    assert!(matches!(&conflict, StateError::ETagConflict { key } if key == "k"));
    assert_eq!(conflict.message(), "ETag conflict on key k: concurrent write detected");
    let failed =
        DaprStateStore::write_outcome("k", WriteReply::Failed("down".to_string())).unwrap_err();
    assert_eq!(failed.message(), "Dapr state store error: down");
}
