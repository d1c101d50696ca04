//! Namespaces of the KV cache.
//!
//! A block of the cache is looked up under `{tenant_id}:{sensitivity}:{agent_type}:{prefix_hash}`,
//! so that blocks of one tenant are not served to another, even where their system prompts hash
//! to the same value.

#[allow(unused_imports)]
use crate::digest::sha256_of;
use crate::digest::sha256;
use crate::proto::{KvNamespaceKey, SensitivityLevel};
#[allow(unused_imports)]
use crate::text::{hex_of, lemma_hex_injective};
use vstd::prelude::*;

verus! {

/// The label of a sensitivity level. A level without a name counts as unspecified.
pub open spec fn label_text(level: SensitivityLevel) -> Seq<char> {
    match level {
        SensitivityLevel::Public => "PUBLIC"@,
        SensitivityLevel::Internal => "INTERNAL"@,
        SensitivityLevel::Sensitive => "SENSITIVE"@,
        SensitivityLevel::Restricted => "RESTRICTED"@,
        _ => "UNSPECIFIED"@,
    }
}

/// The four parts of a prefix, with colons between them.
pub open spec fn prefix_text(
    tenant_id: Seq<char>,
    level: SensitivityLevel,
    agent_type: Seq<char>,
    prefix_hash: Seq<u8>,
) -> Seq<char> {
    tenant_id + ":"@ + label_text(level) + ":"@ + agent_type + ":"@ + hex_of(prefix_hash)
}

/// Whether `longer` goes on after `tenant_id` with a colon and the label of `level`, and with
/// nothing or another colon after that.
pub open spec fn is_nested_tenant(
    tenant_id: Seq<char>,
    level: SensitivityLevel,
    longer: Seq<char>,
) -> bool {
    let head = tenant_id + ":"@ + label_text(level);
    &&& head.is_prefix_of(longer)
    &&& longer.len() > head.len() ==> longer[head.len() as int] == ':'
}

/// `hex::encode`: the contract states the hexadecimal notation in lower case. Its length must be
/// one that a string can have.
#[verifier::external_body]
fn hex_text(data: &[u8]) -> (text: String)
    requires
        2 * data@.len() <= isize::MAX,
    ensures
        text@ == hex_of(data@),
{
    hex::encode(data)
}

/// The label of a sensitivity level.
pub fn sensitivity_label(level: SensitivityLevel) -> (label: &'static str)
    ensures
        label@ == label_text(level),
{
    match level {
        SensitivityLevel::Public => "PUBLIC",
        SensitivityLevel::Internal => "INTERNAL",
        SensitivityLevel::Sensitive => "SENSITIVE",
        SensitivityLevel::Restricted => "RESTRICTED",
        _ => "UNSPECIFIED",
    }
}

/// The namespace of a request. The prefix of the system prompt goes in as its SHA-256 digest.
pub fn build_namespace_key(
    tenant_id: &str,
    sensitivity: SensitivityLevel,
    agent_type: &str,
    system_prompt_prefix: &str,
) -> (key: KvNamespaceKey)
    ensures
        key.tenant_id@ == tenant_id@,
        key.sensitivity == sensitivity,
        key.agent_type@ == agent_type@,
        key.prefix_hash@ == sha256_of(vstd::utf8::encode_utf8(system_prompt_prefix@)),
        key.prefix_hash@.len() == 32,
{
    KvNamespaceKey {
        tenant_id: tenant_id.to_owned(),
        sensitivity,
        agent_type: agent_type.to_owned(),
        prefix_hash: sha256(system_prompt_prefix.as_bytes()),
    }
}

/// Renders a namespace as the prefix of its cache keys.
pub fn namespace_key_to_prefix(key: &KvNamespaceKey) -> (prefix: String)
    requires
        2 * key.prefix_hash@.len() <= isize::MAX,
    ensures
        prefix@ == prefix_text(
            key.tenant_id@,
            key.sensitivity,
            key.agent_type@,
            key.prefix_hash@,
        ),
{
    let mut prefix = key.tenant_id.clone();
    prefix.append(":");
    prefix.append(sensitivity_label(key.sensitivity));
    prefix.append(":");
    prefix.append(key.agent_type.as_str());
    prefix.append(":");
    prefix.append(hex_text(key.prefix_hash.as_slice()).as_str());
    prefix
}

/// No label holds a colon.
proof fn lemma_label_has_no_colon(level: SensitivityLevel)
    ensures
        !label_text(level).contains(':'),
{
    reveal_strlit("PUBLIC");
    reveal_strlit("INTERNAL");
    reveal_strlit("SENSITIVE");
    reveal_strlit("RESTRICTED");
    reveal_strlit("UNSPECIFIED");
}

/// Two prefixes that are the same, where the first tenant id is the shorter one.
proof fn lemma_shorter_tenant_is_nested(
    tenant1: Seq<char>,
    level1: SensitivityLevel,
    rest1: Seq<char>,
    tenant2: Seq<char>,
    rest2: Seq<char>,
)
    requires
        tenant1 + ":"@ + label_text(level1) + ":"@ + rest1 == tenant2 + ":"@ + rest2,
        tenant1.len() < tenant2.len(),
    ensures
        is_nested_tenant(tenant1, level1, tenant2),
{
    reveal_strlit(":");
    lemma_label_has_no_colon(level1);
    let label = label_text(level1);
    let head = tenant1 + ":"@ + label;
    let whole1 = tenant1 + ":"@ + label + ":"@ + rest1;
    let whole2 = tenant2 + ":"@ + rest2;
    assert(whole2[tenant2.len() as int] == ':');
    if tenant2.len() < head.len() {
        let at = tenant2.len() - tenant1.len() - 1;
        assert(whole1[tenant2.len() as int] == label[at]);
        assert(label.contains(':'));
    }
    assert(tenant2.len() >= head.len());
    assert forall|i: int| 0 <= i < head.len() implies head[i] == tenant2[i] by {
        assert(whole1[i] == head[i]);
        assert(whole2[i] == tenant2[i]);
    }
    if tenant2.len() > head.len() {
        assert(whole1[head.len() as int] == ':');
        assert(whole2[head.len() as int] == tenant2[head.len() as int]);
    }
}

/// Tenants are isolated: two different tenants never have the same prefix, whatever the rest of
/// their namespaces, unless the id of one goes on after the id of the other with a colon and its
/// sensitivity label.
pub proof fn law_tenants_are_isolated(
    tenant1: Seq<char>,
    level1: SensitivityLevel,
    agent_type1: Seq<char>,
    prefix_hash1: Seq<u8>,
    tenant2: Seq<char>,
    level2: SensitivityLevel,
    agent_type2: Seq<char>,
    prefix_hash2: Seq<u8>,
)
    requires
        tenant1 != tenant2,
        !is_nested_tenant(tenant1, level1, tenant2),
        !is_nested_tenant(tenant2, level2, tenant1),
    ensures
        prefix_text(tenant1, level1, agent_type1, prefix_hash1) != prefix_text(
            tenant2,
            level2,
            agent_type2,
            prefix_hash2,
        ),
{
    reveal_strlit(":");
    let whole1 = prefix_text(tenant1, level1, agent_type1, prefix_hash1);
    let whole2 = prefix_text(tenant2, level2, agent_type2, prefix_hash2);
    if whole1 == whole2 {
        let rest1 = agent_type1 + ":"@ + hex_of(prefix_hash1);
        let rest2 = agent_type2 + ":"@ + hex_of(prefix_hash2);
        let tail1 = label_text(level1) + ":"@ + rest1;
        let tail2 = label_text(level2) + ":"@ + rest2;
        assert(whole1 =~= tenant1 + ":"@ + label_text(level1) + ":"@ + rest1);
        assert(whole2 =~= tenant2 + ":"@ + label_text(level2) + ":"@ + rest2);
        assert(whole1 =~= tenant1 + ":"@ + tail1);
        assert(whole2 =~= tenant2 + ":"@ + tail2);
        if tenant1.len() < tenant2.len() {
            lemma_shorter_tenant_is_nested(tenant1, level1, rest1, tenant2, tail2);
        } else if tenant2.len() < tenant1.len() {
            lemma_shorter_tenant_is_nested(tenant2, level2, rest2, tenant1, tail1);
        } else {
            assert forall|i: int| 0 <= i < tenant1.len() implies tenant1[i] == tenant2[i] by {
                assert(whole1[i] == tenant1[i]);
                assert(whole2[i] == tenant2[i]);
            }
            assert(tenant1 =~= tenant2);
        }
    }
}

/// Where one tenant id goes on after the other with a colon and its label, there are agent types
/// under which both have the same prefix: such ids are not isolated.
pub proof fn law_nested_tenants_can_share(
    tenant1: Seq<char>,
    level1: SensitivityLevel,
    tenant2: Seq<char>,
    level2: SensitivityLevel,
    agent_type2: Seq<char>,
    prefix_hash: Seq<u8>,
)
    requires
        is_nested_tenant(tenant1, level1, tenant2),
    ensures
        exists|agent_type1: Seq<char>|
            #[trigger] prefix_text(tenant1, level1, agent_type1, prefix_hash) == prefix_text(
                tenant2,
                level2,
                agent_type2,
                prefix_hash,
            ),
{
    reveal_strlit(":");
    let head = tenant1 + ":"@ + label_text(level1);
    let end = label_text(level2) + ":"@ + agent_type2;
    let agent_type1 = if tenant2.len() == head.len() {
        end
    } else {
        tenant2.skip(head.len() as int + 1) + ":"@ + end
    };
    assert(tenant2.take(head.len() as int) =~= head);
    let whole1 = prefix_text(tenant1, level1, agent_type1, prefix_hash);
    let whole2 = prefix_text(tenant2, level2, agent_type2, prefix_hash);
    if tenant2.len() == head.len() {
        assert(tenant2 =~= head);
    } else {
        assert(tenant2 =~= head + ":"@ + tenant2.skip(head.len() as int + 1));
    }
    assert(whole1 =~= whole2);
}

/// With everything else the same, different tenants have different prefixes, whatever their ids.
pub proof fn law_same_prompt_different_tenant(
    tenant1: Seq<char>,
    tenant2: Seq<char>,
    level: SensitivityLevel,
    agent_type: Seq<char>,
    prefix_hash: Seq<u8>,
)
    requires
        tenant1 != tenant2,
    ensures
        prefix_text(tenant1, level, agent_type, prefix_hash) != prefix_text(
            tenant2,
            level,
            agent_type,
            prefix_hash,
        ),
{
    let whole1 = prefix_text(tenant1, level, agent_type, prefix_hash);
    let whole2 = prefix_text(tenant2, level, agent_type, prefix_hash);
    if whole1 == whole2 {
        assert(tenant1.len() == tenant2.len()) by {
            assert(whole1.len() == whole2.len());
        }
        assert forall|i: int| 0 <= i < tenant1.len() implies tenant1[i] == tenant2[i] by {
            assert(whole1[i] == tenant1[i]);
            assert(whole2[i] == tenant2[i]);
        }
        assert(tenant1 =~= tenant2);
    }
}

/// A prefix starts with the tenant id and the label of the sensitivity level: the prefix of a
/// restricted request says so.
pub proof fn law_prefix_shows_tenant_and_level(
    tenant_id: Seq<char>,
    level: SensitivityLevel,
    agent_type: Seq<char>,
    prefix_hash: Seq<u8>,
)
    ensures
        (tenant_id + ":"@ + label_text(level) + ":"@).is_prefix_of(
            prefix_text(tenant_id, level, agent_type, prefix_hash),
        ),
{
}

/// For a given tenant, the prefix determines the label, the agent type and the hash: no two
/// namespaces of one tenant are mixed up.
pub proof fn law_prefix_determines_namespace(
    tenant_id: Seq<char>,
    level1: SensitivityLevel,
    agent_type1: Seq<char>,
    prefix_hash1: Seq<u8>,
    level2: SensitivityLevel,
    agent_type2: Seq<char>,
    prefix_hash2: Seq<u8>,
)
    requires
        prefix_text(tenant_id, level1, agent_type1, prefix_hash1) == prefix_text(
            tenant_id,
            level2,
            agent_type2,
            prefix_hash2,
        ),
    ensures
        label_text(level1) == label_text(level2),
        agent_type1 == agent_type2,
        prefix_hash1 == prefix_hash2,
{
    reveal_strlit(":");
    lemma_label_has_no_colon(level1);
    lemma_label_has_no_colon(level2);
    let whole1 = prefix_text(tenant_id, level1, agent_type1, prefix_hash1);
    let whole2 = prefix_text(tenant_id, level2, agent_type2, prefix_hash2);
    let label1 = label_text(level1);
    let label2 = label_text(level2);
    let start: int = tenant_id.len() as int + 1;
    assert(whole1[start + label1.len()] == ':');
    assert(whole2[start + label2.len()] == ':');
    if label1.len() < label2.len() {
        assert(whole2[start + label1.len()] == label2[label1.len() as int]);
        assert(label2.contains(':'));
    } else if label2.len() < label1.len() {
        assert(whole1[start + label2.len()] == label1[label2.len() as int]);
        assert(label1.contains(':'));
    }
    assert forall|i: int| 0 <= i < label1.len() implies label1[i] == label2[i] by {
        assert(whole1[start + i] == label1[i]);
        assert(whole2[start + i] == label2[i]);
    }
    assert(label1 =~= label2);
    let hex1 = hex_of(prefix_hash1);
    let hex2 = hex_of(prefix_hash2);
    let type_start: int = start + label1.len() + 1;
    let end1: int = type_start + agent_type1.len();
    let end2: int = type_start + agent_type2.len();
    assert(whole1[end1] == ':');
    assert(whole2[end2] == ':');
    assert(whole1.len() == end1 + 1 + hex1.len());
    assert(whole2.len() == end2 + 1 + hex2.len());
    if end1 < end2 {
        assert(whole1[end2] == hex1[end2 - end1 - 1]);
    } else if end2 < end1 {
        assert(whole2[end1] == hex2[end1 - end2 - 1]);
    }
    assert(end1 == end2);
    assert forall|i: int| 0 <= i < agent_type1.len() implies agent_type1[i] == agent_type2[i] by {
        assert(whole1[type_start + i] == agent_type1[i]);
        assert(whole2[type_start + i] == agent_type2[i]);
    }
    assert(agent_type1 =~= agent_type2);
    assert forall|i: int| 0 <= i < hex1.len() implies hex1[i] == hex2[i] by {
        assert(whole1[end1 + 1 + i] == hex1[i]);
        assert(whole2[end2 + 1 + i] == hex2[i]);
    }
    assert(hex1 =~= hex2);
    lemma_hex_injective(prefix_hash1, prefix_hash2);
}

/// The four named levels have labels of their own, and every other level counts as unspecified.
pub proof fn law_levels_are_labelled(level: SensitivityLevel, label: &'static str)
    requires
        call_ensures(sensitivity_label, (level,), label),
    ensures
        level == SensitivityLevel::Public ==> label@ == "PUBLIC"@,
        level == SensitivityLevel::Internal ==> label@ == "INTERNAL"@,
        level == SensitivityLevel::Sensitive ==> label@ == "SENSITIVE"@,
        level == SensitivityLevel::Restricted ==> label@ == "RESTRICTED"@,
        level == SensitivityLevel::Unspecified || level is Unrecognized ==> label@
            == "UNSPECIFIED"@,
{
}

/// Different levels are never taken for one another, but for those without a name.
pub proof fn law_levels_are_told_apart(level1: SensitivityLevel, level2: SensitivityLevel)
    requires
        label_text(level1) == label_text(level2),
    ensures
        level1 == level2 || ((level1 is Unspecified || level1 is Unrecognized) && (
        level2 is Unspecified || level2 is Unrecognized)),
{
    reveal_strlit("PUBLIC");
    reveal_strlit("INTERNAL");
    reveal_strlit("SENSITIVE");
    reveal_strlit("RESTRICTED");
    reveal_strlit("UNSPECIFIED");
    assert("PUBLIC"@.len() == 6);
    assert("INTERNAL"@.len() == 8);
    assert("SENSITIVE"@.len() == 9);
    assert("RESTRICTED"@.len() == 10);
    assert("UNSPECIFIED"@.len() == 11);
}

/// The namespace of a request is that of its tenant, level, agent type and prompt: its prefix is
/// these four, with the SHA-256 digest of the prompt in hexadecimal, separated by colons.
pub proof fn law_prefix_is_that_of_the_request(
    tenant_id: &str,
    level: SensitivityLevel,
    label: &'static str,
    agent_type: &str,
    prompt: &str,
    key: KvNamespaceKey,
    prefix: String,
)
    requires
        call_ensures(build_namespace_key, (tenant_id, level, agent_type, prompt), key),
        2 * key.prefix_hash@.len() <= isize::MAX,
        call_ensures(namespace_key_to_prefix, (&key,), prefix),
        call_ensures(sensitivity_label, (level,), label),
    ensures
        key.tenant_id@ == tenant_id@,
        key.sensitivity == level,
        key.agent_type@ == agent_type@,
        key.prefix_hash@ == sha256_of(vstd::utf8::encode_utf8(prompt@)),
        prefix@ == tenant_id@ + ":"@ + label@ + ":"@ + agent_type@ + ":"@ + hex_of(
            sha256_of(vstd::utf8::encode_utf8(prompt@)),
        ),
{
}

/// Requests of one tenant share a prefix only where they agree in level, as far as levels have
/// names, in agent type and in the digest of the prompt; two tenants with the same level, agent
/// type and prompt never share one.
pub proof fn law_requests_share_a_prefix_only_if_alike(
    tenant1: &str,
    level1: SensitivityLevel,
    agent_type1: &str,
    prompt1: &str,
    key1: KvNamespaceKey,
    prefix1: String,
    tenant2: &str,
    level2: SensitivityLevel,
    agent_type2: &str,
    prompt2: &str,
    key2: KvNamespaceKey,
    prefix2: String,
)
    requires
        call_ensures(build_namespace_key, (tenant1, level1, agent_type1, prompt1), key1),
        call_ensures(build_namespace_key, (tenant2, level2, agent_type2, prompt2), key2),
        2 * key1.prefix_hash@.len() <= isize::MAX,
        2 * key2.prefix_hash@.len() <= isize::MAX,
        call_ensures(namespace_key_to_prefix, (&key1,), prefix1),
        call_ensures(namespace_key_to_prefix, (&key2,), prefix2),
        prefix1@ == prefix2@,
    ensures
        tenant1@ == tenant2@ ==> label_text(level1) == label_text(level2) && agent_type1@
            == agent_type2@ && sha256_of(vstd::utf8::encode_utf8(prompt1@)) == sha256_of(
            vstd::utf8::encode_utf8(prompt2@),
        ),
        level1 == level2 && agent_type1@ == agent_type2@ && prompt1@ == prompt2@ ==> tenant1@
            == tenant2@,
{
    if tenant1@ == tenant2@ {
        law_prefix_determines_namespace(
            tenant1@,
            level1,
            agent_type1@,
            key1.prefix_hash@,
            level2,
            agent_type2@,
            key2.prefix_hash@,
        );
    } else if level1 == level2 && agent_type1@ == agent_type2@ && prompt1@ == prompt2@ {
        law_same_prompt_different_tenant(
            tenant1@,
            tenant2@,
            level1,
            agent_type1@,
            key1.prefix_hash@,
        );
    }
}

} // verus!
