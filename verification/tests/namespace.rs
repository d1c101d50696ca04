use af_swarm::namespace::{build_namespace_key, namespace_key_to_prefix, sensitivity_label};
use af_swarm::proto::{KvNamespaceKey, SensitivityLevel};

#[test]
fn different_tenants_produce_different_prefixes() {
    let key_a = build_namespace_key("tenant_a", SensitivityLevel::Internal, "orchestrator", "system prompt");
    let key_b = build_namespace_key("tenant_b", SensitivityLevel::Internal, "orchestrator", "system prompt");
    // Same system prompt, same agent type — different tenant → different prefix
    assert_ne!(
        namespace_key_to_prefix(&key_a),
        namespace_key_to_prefix(&key_b),
    );
}

#[test]
fn restricted_prefix_contains_restricted_label() {
    let key = build_namespace_key("tenant_xyz", SensitivityLevel::Restricted, "orchestrator", "classified prompt");
    let prefix = namespace_key_to_prefix(&key);
    assert!(prefix.starts_with("tenant_xyz:RESTRICTED:"));
}

#[test]
fn prefix_has_its_exact_form() {
    let key = build_namespace_key("acme", SensitivityLevel::Public, "coder", "abc");
    assert_eq!(
        namespace_key_to_prefix(&key),
        "acme:PUBLIC:coder:ba7816bf8f01cfea414140de5dae2223b00361a396177a9cb410ff61f20015ad"
    );
}

#[test]
fn empty_prompt_is_hashed_too() {
    let key = build_namespace_key("acme", SensitivityLevel::Sensitive, "coder", "");
    assert_eq!(
        namespace_key_to_prefix(&key),
        "acme:SENSITIVE:coder:e3b0c44298fc1c149afbf4c8996fb92427ae41e4649b934ca495991b7852b855"
    );
}

#[test]
fn every_level_has_its_label() {
    assert_eq!(sensitivity_label(SensitivityLevel::Public), "PUBLIC");
    assert_eq!(sensitivity_label(SensitivityLevel::Internal), "INTERNAL");
    assert_eq!(sensitivity_label(SensitivityLevel::Sensitive), "SENSITIVE");
    assert_eq!(sensitivity_label(SensitivityLevel::Restricted), "RESTRICTED");
    assert_eq!(sensitivity_label(SensitivityLevel::Unspecified), "UNSPECIFIED");
    assert_eq!(sensitivity_label(SensitivityLevel::Unrecognized(77)), "UNSPECIFIED");
}

fn key(tenant: &str, agent_type: &str, hash: Vec<u8>) -> KvNamespaceKey {
    KvNamespaceKey {
        tenant_id: tenant.to_string(),
        sensitivity: SensitivityLevel::Internal,
        agent_type: agent_type.to_string(),
        prefix_hash: hash,
    }
}

#[test]
fn hash_bytes_are_rendered_in_lower_case_hex() {
    assert_eq!(
        namespace_key_to_prefix(&key("t", "a", vec![0, 1, 15, 16, 171, 255])),
        "t:INTERNAL:a:00010f10abff"
    );
}

#[test]
fn nested_tenant_ids_can_share_a_prefix() {
    assert_eq!(
        namespace_key_to_prefix(&key("a", "INTERNAL:b", vec![1])),
        namespace_key_to_prefix(&key("a:INTERNAL", "b", vec![1]))
    );
}

#[test]
fn colliding_hashes_do_not_mix_tenants() {
    assert_ne!(
        namespace_key_to_prefix(&key("a", "x:b", vec![1])),
        namespace_key_to_prefix(&key("a:x", "b", vec![1]))
    );
}

#[test]
fn namespaces_of_one_tenant_are_told_apart() {
    let base = namespace_key_to_prefix(&key("t", "a", vec![1]));
    assert_ne!(base, namespace_key_to_prefix(&key("t", "b", vec![1])));
    assert_ne!(base, namespace_key_to_prefix(&key("t", "a", vec![2])));
    assert_ne!(base, namespace_key_to_prefix(&key("t", "a", vec![1, 1])));
    assert_ne!(
        base,
        namespace_key_to_prefix(&build_namespace_key("t", SensitivityLevel::Public, "a", ""))
    );
}
