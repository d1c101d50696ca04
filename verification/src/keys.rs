//! Keys of the state store: one key per record, scoped by tenant and agent.

use crate::text::{digit_value, padded_decimal, padded_text};
#[allow(unused_imports)]
use crate::text::{
    digit, lemma_padded_digits, lemma_padded_injective, lemma_padded_len, lemma_padded_order,
    lemma_text_lt_asymmetric, lemma_text_lt_prefix, lemma_text_lt_strip, pow10, text_lt,
};
use vstd::prelude::*;

verus! {

/// Separator between the parts of a key. Must not appear in a tenant or agent id.
pub const KEY_SEP: &'static str = "||";

/// Namespace prefix of all keys, set in the configuration of the state component.
pub const KEY_PREFIX: &'static str = "afswarm";

/// Width of the sequence number in a checkpoint key: no `u64` has more digits.
pub const CHECKPOINT_SEQ_WIDTH: usize = 20;

/// The separator as a sequence of characters.
pub open spec fn sep() -> Seq<char> {
    seq!['|', '|']
}

/// The record that a key names, within one tenant and agent.
pub enum RecordName {
    State,
    WorkingMemory,
    Checkpoint(u64),
    ConversationTurn(Seq<char>),
    ToolLog(Seq<char>),
}

/// The part of a key behind the tenant and the agent.
pub open spec fn record_tail(name: RecordName) -> Seq<char> {
    match name {
        RecordName::State => "state"@,
        RecordName::WorkingMemory => "working_memory"@,
        RecordName::Checkpoint(seq) => "checkpoint"@ + sep() + padded_decimal(
            seq as nat,
            CHECKPOINT_SEQ_WIDTH as nat,
        ),
        RecordName::ConversationTurn(turn_id) => "conv"@ + sep() + turn_id,
        RecordName::ToolLog(log_id) => "tool_log"@ + sep() + log_id,
    }
}

/// A key: the tenant, the agent and `tail`, with separators between them.
pub open spec fn scoped_key(tenant_id: Seq<char>, agent_id: Seq<char>, tail: Seq<char>) -> Seq<
    char,
> {
    tenant_id + sep() + agent_id + sep() + tail
}

/// The key of a record of an agent of a tenant.
pub open spec fn record_key(
    tenant_id: Seq<char>,
    agent_id: Seq<char>,
    name: RecordName,
) -> Seq<char> {
    scoped_key(tenant_id, agent_id, record_tail(name))
}

/// Whether the separator occurs in `s`.
pub open spec fn contains_sep(s: Seq<char>) -> bool {
    exists|i: int| sep_at(s, i)
}

/// Whether the separator starts at index `i` of `s`.
pub open spec fn sep_at(s: Seq<char>, i: int) -> bool {
    0 <= i < s.len() - 1 && s[i] == '|' && s[i + 1] == '|'
}

/// An id that may stand in a key: not empty, and without the separator.
pub open spec fn valid_id(s: Seq<char>) -> bool {
    s.len() > 0 && !contains_sep(s)
}

/// The first tenant plus a bar is the second, and the first agent is a bar plus the second: the
/// three bars in the middle of the key can then be read as either pair.
pub open spec fn straddles(
    tenant1: Seq<char>,
    agent1: Seq<char>,
    tenant2: Seq<char>,
    agent2: Seq<char>,
) -> bool {
    tenant2 == tenant1.push('|') && agent1 == seq!['|'] + agent2
}

proof fn lemma_split_agent(a1: Seq<char>, tail1: Seq<char>, a2: Seq<char>, tail2: Seq<char>)
    requires
        !contains_sep(a2),
        a1.len() <= a2.len(),
        tail1.len() > 0,
        tail1[0] != '|',
        a1 + sep() + tail1 == a2 + sep() + tail2,
    ensures
        a1 == a2,
        tail1 == tail2,
{
    let s = a1 + sep() + tail1;
    let t = a2 + sep() + tail2;
    let n = a1.len() as int;
    if n < a2.len() {
        assert(s[n] == '|' && t[n] == a2[n]);
        if n + 1 < a2.len() {
            assert(s[n + 1] == '|' && t[n + 1] == a2[n + 1]);
            assert(sep_at(a2, n));
        } else {
            assert(s[n + 2] == tail1[0]);
            assert(t[n + 2] == '|');
        }
        assert(false);
    }
    assert(a1 =~= a2) by {
        assert forall|i: int| 0 <= i < n implies a1[i] == a2[i] by {
            assert(s[i] == t[i]);
        }
    }
    assert(s.len() == n + 2 + tail1.len());
    assert(t.len() == n + 2 + tail2.len());
    assert(tail1 =~= tail2) by {
        assert forall|i: int| 0 <= i < tail1.len() implies tail1[i] == tail2[i] by {
            assert(s[n + 2 + i] == t[n + 2 + i]);
        }
    }
}

proof fn lemma_split_key(
    t1: Seq<char>,
    a1: Seq<char>,
    tail1: Seq<char>,
    t2: Seq<char>,
    a2: Seq<char>,
    tail2: Seq<char>,
)
    requires
        valid_id(t1),
        valid_id(a1),
        valid_id(t2),
        valid_id(a2),
        tail1.len() > 0,
        tail1[0] != '|',
        tail2.len() > 0,
        tail2[0] != '|',
        t1.len() <= t2.len(),
        scoped_key(t1, a1, tail1) == scoped_key(t2, a2, tail2),
    ensures
        tail1 == tail2,
        (t1 == t2 && a1 == a2) || straddles(t1, a1, t2, a2),
{
    let s = scoped_key(t1, a1, tail1);
    let u = scoped_key(t2, a2, tail2);
    let n = t1.len() as int;
    let rest1 = a1 + sep() + tail1;
    let rest2 = a2 + sep() + tail2;
    assert(s =~= t1 + sep() + rest1);
    assert(u =~= t2 + sep() + rest2);
    assert forall|i: int| 0 <= i < n implies t1[i] == t2[i] by {
        assert(s[i] == u[i]);
    }
    if n == t2.len() {
        assert(t1 =~= t2);
        assert(rest1 =~= s.skip(n + 2));
        assert(rest2 =~= u.skip(n + 2));
        if a1.len() <= a2.len() {
            lemma_split_agent(a1, tail1, a2, tail2);
        } else {
            lemma_split_agent(a2, tail2, a1, tail1);
        }
    } else {
        assert(s[n] == '|' && u[n] == t2[n]);
        if n + 1 < t2.len() {
            assert(s[n + 1] == '|' && u[n + 1] == t2[n + 1]);
            assert(sep_at(t2, n));
            assert(false);
        }
        assert(t2 =~= t1.push('|'));
        assert(s[n + 2] == a1[0] && u[n + 2] == '|');
        let b1 = a1.skip(1);
        let inner1 = b1 + sep() + tail1;
        assert(inner1 =~= s.skip(n + 3));
        assert(rest2 =~= u.skip(n + 3));
        assert(!contains_sep(b1)) by {
            if contains_sep(b1) {
                let i = choose|i: int| sep_at(b1, i);
                assert(sep_at(a1, i + 1));
            }
        }
        if b1.len() <= a2.len() {
            lemma_split_agent(b1, tail1, a2, tail2);
        } else {
            lemma_split_agent(a2, tail2, b1, tail1);
        }
        assert(a1 =~= seq!['|'] + a2);
    }
}

proof fn lemma_tail_start(name: RecordName)
    ensures
        record_tail(name).len() > 0,
        record_tail(name)[0] != '|',
{
    reveal_strlit("state");
    reveal_strlit("working_memory");
    reveal_strlit("checkpoint");
    reveal_strlit("conv");
    reveal_strlit("tool_log");
}

/// No `u64` needs more digits than a checkpoint key has.
pub proof fn lemma_seq_fits(seq: u64)
    ensures
        seq < pow10(CHECKPOINT_SEQ_WIDTH as nat),
{
    reveal_with_fuel(pow10, 21);
    assert(pow10(20) == 100_000_000_000_000_000_000nat);
}

proof fn lemma_tail_injective(name1: RecordName, name2: RecordName)
    requires
        record_tail(name1) == record_tail(name2),
    ensures
        name1 == name2,
{
    reveal_strlit("state");
    reveal_strlit("working_memory");
    reveal_strlit("checkpoint");
    reveal_strlit("conv");
    reveal_strlit("tool_log");
    let t1 = record_tail(name1);
    let t2 = record_tail(name2);
    assert(t1[0] == t2[0] && t1[1] == t2[1]);
    match (name1, name2) {
        (RecordName::Checkpoint(seq1), RecordName::Checkpoint(seq2)) => {
            let p1 = padded_decimal(seq1 as nat, CHECKPOINT_SEQ_WIDTH as nat);
            let p2 = padded_decimal(seq2 as nat, CHECKPOINT_SEQ_WIDTH as nat);
            assert(p1 =~= t1.skip(12));
            assert(p2 =~= t2.skip(12));
            lemma_seq_fits(seq1);
            lemma_seq_fits(seq2);
            lemma_padded_injective(seq1 as nat, seq2 as nat, CHECKPOINT_SEQ_WIDTH as nat);
        },
        (RecordName::ConversationTurn(id1), RecordName::ConversationTurn(id2)) => {
            assert(id1 =~= t1.skip(6));
            assert(id2 =~= t2.skip(6));
        },
        (RecordName::ToolLog(id1), RecordName::ToolLog(id2)) => {
            assert(id1 =~= t1.skip(10));
            assert(id2 =~= t2.skip(10));
        },
        _ => {},
    }
}

/// Different records have different keys: two keys over valid ids are equal only where tenant,
/// agent and record are, unless one pair of ids straddles the other in keys of one record.
pub proof fn law_keys_are_distinct(
    tenant1: Seq<char>,
    agent1: Seq<char>,
    name1: RecordName,
    tenant2: Seq<char>,
    agent2: Seq<char>,
    name2: RecordName,
)
    requires
        valid_id(tenant1),
        valid_id(agent1),
        valid_id(tenant2),
        valid_id(agent2),
        name1 == name2 ==> !straddles(tenant1, agent1, tenant2, agent2) && !straddles(
            tenant2,
            agent2,
            tenant1,
            agent1,
        ),
        (tenant1, agent1, name1) != (tenant2, agent2, name2),
    ensures
        record_key(tenant1, agent1, name1) != record_key(tenant2, agent2, name2),
{
    if record_key(tenant1, agent1, name1) == record_key(tenant2, agent2, name2) {
        law_key_kinds_are_distinct(tenant1, agent1, name1, tenant2, agent2, name2);
    }
}

/// One key never names two different records, whatever valid ids it is read with.
pub proof fn law_key_kinds_are_distinct(
    tenant1: Seq<char>,
    agent1: Seq<char>,
    name1: RecordName,
    tenant2: Seq<char>,
    agent2: Seq<char>,
    name2: RecordName,
)
    requires
        valid_id(tenant1),
        valid_id(agent1),
        valid_id(tenant2),
        valid_id(agent2),
        record_key(tenant1, agent1, name1) == record_key(tenant2, agent2, name2),
    ensures
        name1 == name2,
        (tenant1 == tenant2 && agent1 == agent2) || straddles(tenant1, agent1, tenant2, agent2)
            || straddles(tenant2, agent2, tenant1, agent1),
{
    lemma_tail_start(name1);
    lemma_tail_start(name2);
    let tail1 = record_tail(name1);
    let tail2 = record_tail(name2);
    if tenant1.len() <= tenant2.len() {
        lemma_split_key(tenant1, agent1, tail1, tenant2, agent2, tail2);
    } else {
        lemma_split_key(tenant2, agent2, tail2, tenant1, agent1, tail1);
    }
    lemma_tail_injective(name1, name2);
}

/// Ids that straddle one another do share their keys: a bar at the end of a tenant id and one
/// at the start of an agent id cannot be told apart.
pub proof fn law_straddling_ids_share_keys(
    tenant1: Seq<char>,
    agent1: Seq<char>,
    tenant2: Seq<char>,
    agent2: Seq<char>,
    name: RecordName,
)
    requires
        straddles(tenant1, agent1, tenant2, agent2),
    ensures
        record_key(tenant1, agent1, name) == record_key(tenant2, agent2, name),
{
    assert(record_key(tenant1, agent1, name) =~= record_key(tenant2, agent2, name));
}

/// The keys of an agent in full: the tenant, the agent and the record, with separators between
/// them. The number of a checkpoint has twenty digits.
pub proof fn law_record_keys_in_full(
    tenant_id: Seq<char>,
    agent_id: Seq<char>,
    seq: u64,
    turn_id: Seq<char>,
    log_id: Seq<char>,
)
    ensures
        record_key(tenant_id, agent_id, RecordName::State) == tenant_id + "||"@ + agent_id
            + "||state"@,
        record_key(tenant_id, agent_id, RecordName::WorkingMemory) == tenant_id + "||"@ + agent_id
            + "||working_memory"@,
        record_key(tenant_id, agent_id, RecordName::Checkpoint(seq)) == tenant_id + "||"@
            + agent_id + "||checkpoint||"@ + padded_decimal(seq as nat, 20),
        padded_decimal(seq as nat, 20).len() == 20,
        record_key(tenant_id, agent_id, RecordName::ConversationTurn(turn_id)) == tenant_id
            + "||"@ + agent_id + "||conv||"@ + turn_id,
        record_key(tenant_id, agent_id, RecordName::ToolLog(log_id)) == tenant_id + "||"@
            + agent_id + "||tool_log||"@ + log_id,
{
    reveal_strlit("||");
    reveal_strlit("state");
    reveal_strlit("||state");
    reveal_strlit("working_memory");
    reveal_strlit("||working_memory");
    reveal_strlit("checkpoint");
    reveal_strlit("||checkpoint||");
    reveal_strlit("conv");
    reveal_strlit("||conv||");
    reveal_strlit("tool_log");
    reveal_strlit("||tool_log||");
    let scope = tenant_id + "||"@ + agent_id;
    assert(record_key(tenant_id, agent_id, RecordName::State) =~= scope + "||state"@);
    assert(record_key(tenant_id, agent_id, RecordName::WorkingMemory) =~= scope
        + "||working_memory"@);
    assert(record_key(tenant_id, agent_id, RecordName::Checkpoint(seq)) =~= scope
        + "||checkpoint||"@ + padded_decimal(seq as nat, 20));
    lemma_padded_len(seq as nat, 20);
    assert(record_key(tenant_id, agent_id, RecordName::ConversationTurn(turn_id)) =~= scope
        + "||conv||"@ + turn_id);
    assert(record_key(tenant_id, agent_id, RecordName::ToolLog(log_id)) =~= scope
        + "||tool_log||"@ + log_id);
}

/// The checkpoint keys of an agent sort as their sequence numbers do.
pub proof fn law_checkpoint_keys_sort(
    tenant_id: Seq<char>,
    agent_id: Seq<char>,
    seq1: u64,
    seq2: u64,
)
    ensures
        text_lt(
            record_key(tenant_id, agent_id, RecordName::Checkpoint(seq1)),
            record_key(tenant_id, agent_id, RecordName::Checkpoint(seq2)),
        ) <==> seq1 < seq2,
{
    let key1 = record_key(tenant_id, agent_id, RecordName::Checkpoint(seq1));
    let key2 = record_key(tenant_id, agent_id, RecordName::Checkpoint(seq2));
    if seq1 < seq2 {
        lemma_checkpoint_keys_ascend(tenant_id, agent_id, seq1, seq2);
    } else if text_lt(key1, key2) {
        lemma_text_lt_asymmetric(key1, key2);
        if seq2 < seq1 {
            lemma_checkpoint_keys_ascend(tenant_id, agent_id, seq2, seq1);
        }
    }
}

proof fn lemma_checkpoint_keys_ascend(
    tenant_id: Seq<char>,
    agent_id: Seq<char>,
    seq1: u64,
    seq2: u64,
)
    requires
        seq1 < seq2,
    ensures
        text_lt(
            record_key(tenant_id, agent_id, RecordName::Checkpoint(seq1)),
            record_key(tenant_id, agent_id, RecordName::Checkpoint(seq2)),
        ),
{
    let width = CHECKPOINT_SEQ_WIDTH as nat;
    lemma_seq_fits(seq2);
    lemma_padded_order(seq1 as nat, seq2 as nat, width);
    let prefix = tenant_id + sep() + agent_id + sep() + ("checkpoint"@ + sep());
    lemma_text_lt_prefix(
        prefix,
        padded_decimal(seq1 as nat, width),
        padded_decimal(seq2 as nat, width),
    );
    assert(prefix + padded_decimal(seq1 as nat, width) =~= record_key(
        tenant_id,
        agent_id,
        RecordName::Checkpoint(seq1),
    ));
    assert(prefix + padded_decimal(seq2 as nat, width) =~= record_key(
        tenant_id,
        agent_id,
        RecordName::Checkpoint(seq2),
    ));
}

/// The conversation turn keys of an agent sort as the ids of the turns do, so that ids in the
/// order of time give keys in that order.
pub proof fn law_conversation_turn_keys_sort(
    tenant_id: Seq<char>,
    agent_id: Seq<char>,
    turn1: Seq<char>,
    turn2: Seq<char>,
)
    ensures
        text_lt(
            record_key(tenant_id, agent_id, RecordName::ConversationTurn(turn1)),
            record_key(tenant_id, agent_id, RecordName::ConversationTurn(turn2)),
        ) <==> text_lt(turn1, turn2),
{
    let prefix = tenant_id + sep() + agent_id + sep() + ("conv"@ + sep());
    let key1 = record_key(tenant_id, agent_id, RecordName::ConversationTurn(turn1));
    let key2 = record_key(tenant_id, agent_id, RecordName::ConversationTurn(turn2));
    assert(prefix + turn1 =~= key1);
    assert(prefix + turn2 =~= key2);
    if text_lt(turn1, turn2) {
        lemma_text_lt_prefix(prefix, turn1, turn2);
    }
    if text_lt(key1, key2) {
        lemma_text_lt_strip(prefix, turn1, turn2);
    }
}

/// The tool log keys of an agent sort as the ids of the logs do.
pub proof fn law_tool_log_keys_sort(
    tenant_id: Seq<char>,
    agent_id: Seq<char>,
    log1: Seq<char>,
    log2: Seq<char>,
)
    ensures
        text_lt(
            record_key(tenant_id, agent_id, RecordName::ToolLog(log1)),
            record_key(tenant_id, agent_id, RecordName::ToolLog(log2)),
        ) <==> text_lt(log1, log2),
{
    let prefix = tenant_id + sep() + agent_id + sep() + ("tool_log"@ + sep());
    let key1 = record_key(tenant_id, agent_id, RecordName::ToolLog(log1));
    let key2 = record_key(tenant_id, agent_id, RecordName::ToolLog(log2));
    assert(prefix + log1 =~= key1);
    assert(prefix + log2 =~= key2);
    if text_lt(log1, log2) {
        lemma_text_lt_prefix(prefix, log1, log2);
    }
    if text_lt(key1, key2) {
        lemma_text_lt_strip(prefix, log1, log2);
    }
}

/// The tenant and the agent with a separator behind each.
fn scope(tenant_id: &str, agent_id: &str) -> (key: String)
    ensures
        key@ == tenant_id@ + sep() + agent_id@ + sep(),
{
    proof {
        reveal_strlit("||");
        assert(KEY_SEP@ =~= sep());
    }
    let mut key = tenant_id.to_owned();
    key.append(KEY_SEP);
    key.append(agent_id);
    key.append(KEY_SEP);
    key
}

/// The key of an agent's primary state.
pub fn agent_state_key(tenant_id: &str, agent_id: &str) -> (key: String)
    ensures
        key@ == record_key(tenant_id@, agent_id@, RecordName::State),
{
    let mut key = scope(tenant_id, agent_id);
    key.append("state");
    key
}

/// The key of an agent's working memory.
pub fn working_memory_key(tenant_id: &str, agent_id: &str) -> (key: String)
    ensures
        key@ == record_key(tenant_id@, agent_id@, RecordName::WorkingMemory),
{
    let mut key = scope(tenant_id, agent_id);
    key.append("working_memory");
    key
}

/// The key of a checkpoint. The sequence number is zero-padded, so that the keys sort by it.
pub fn checkpoint_key(tenant_id: &str, agent_id: &str, seq: u64) -> (key: String)
    ensures
        key@ == record_key(tenant_id@, agent_id@, RecordName::Checkpoint(seq)),
{
    proof {
        reveal_strlit("||");
        assert(KEY_SEP@ =~= sep());
    }
    let mut key = scope(tenant_id, agent_id);
    key.append("checkpoint");
    key.append(KEY_SEP);
    key.append(padded_text(seq, CHECKPOINT_SEQ_WIDTH).as_str());
    assert(key@ =~= record_key(tenant_id@, agent_id@, RecordName::Checkpoint(seq)));
    key
}

/// The key of a conversation turn.
pub fn conversation_turn_key(tenant_id: &str, agent_id: &str, turn_id: &str) -> (key: String)
    ensures
        key@ == record_key(tenant_id@, agent_id@, RecordName::ConversationTurn(turn_id@)),
{
    proof {
        reveal_strlit("||");
        assert(KEY_SEP@ =~= sep());
    }
    let mut key = scope(tenant_id, agent_id);
    key.append("conv");
    key.append(KEY_SEP);
    key.append(turn_id);
    assert(key@ =~= record_key(tenant_id@, agent_id@, RecordName::ConversationTurn(turn_id@)));
    key
}

/// The key of a tool call log entry.
pub fn tool_log_key(tenant_id: &str, agent_id: &str, log_id: &str) -> (key: String)
    ensures
        key@ == record_key(tenant_id@, agent_id@, RecordName::ToolLog(log_id@)),
{
    proof {
        reveal_strlit("||");
        assert(KEY_SEP@ =~= sep());
    }
    let mut key = scope(tenant_id, agent_id);
    key.append("tool_log");
    key.append(KEY_SEP);
    key.append(log_id);
    assert(key@ =~= record_key(tenant_id@, agent_id@, RecordName::ToolLog(log_id@)));
    key
}

/// Whether a key ends in the number `seq`, as the key of that checkpoint does.
pub open spec fn ends_in_seq(key: Seq<char>, seq: u64) -> bool {
    &&& key.len() >= CHECKPOINT_SEQ_WIDTH
    &&& key.skip(key.len() - CHECKPOINT_SEQ_WIDTH) == padded_decimal(
        seq as nat,
        CHECKPOINT_SEQ_WIDTH as nat,
    )
}

/// A key ends in at most one number.
proof fn lemma_one_seq(key: Seq<char>, a: nat, seq: u64)
    requires
        key.len() >= CHECKPOINT_SEQ_WIDTH,
        a < pow10(CHECKPOINT_SEQ_WIDTH as nat),
        key.skip(key.len() - CHECKPOINT_SEQ_WIDTH) == padded_decimal(
            a,
            CHECKPOINT_SEQ_WIDTH as nat,
        ),
        ends_in_seq(key, seq),
    ensures
        a == seq,
{
    lemma_seq_fits(seq);
    lemma_padded_injective(a, seq as nat, CHECKPOINT_SEQ_WIDTH as nat);
}

/// A key does not end in two numbers.
pub proof fn law_key_ends_in_one_number(key: Seq<char>, seq1: u64, seq2: u64)
    requires
        ends_in_seq(key, seq1),
        ends_in_seq(key, seq2),
    ensures
        seq1 == seq2,
{
    lemma_seq_fits(seq1);
    lemma_one_seq(key, seq1 as nat, seq2);
}

/// The number that the key of a checkpoint ends in.
pub fn checkpoint_key_seq(key: &str) -> (seq: Option<u64>)
    ensures
        match seq {
            Some(seq) => ends_in_seq(key@, seq) && forall|s: u64| #[trigger]
                ends_in_seq(key@, s) ==> s == seq,
            None => forall|s: u64| !#[trigger] ends_in_seq(key@, s),
        },
{
    let mut chars: Vec<char> = Vec::new();
    for c in it: key.chars()
        invariant
            it.seq() == key@,
            chars@ =~= key@.take(it.index()),
    {
        chars.push(c);
    }
    assert(chars@ =~= key@);
    let total = chars.len();
    if total < CHECKPOINT_SEQ_WIDTH {
        return None;
    }
    let start = total - CHECKPOINT_SEQ_WIDTH;
    let ghost tail = key@.skip(start as int);
    let mut value: u128 = 0;
    let mut i: usize = 0;
    proof {
        reveal_with_fuel(pow10, 21);
    }
    while i < CHECKPOINT_SEQ_WIDTH
        invariant
            i <= CHECKPOINT_SEQ_WIDTH,
            chars@ == key@,
            start + CHECKPOINT_SEQ_WIDTH == total,
            total == chars@.len(),
            tail == key@.skip(start as int),
            value < pow10(i as nat),
            pow10(i as nat) <= pow10(CHECKPOINT_SEQ_WIDTH as nat),
            pow10(CHECKPOINT_SEQ_WIDTH as nat) == 100_000_000_000_000_000_000nat,
            tail.take(i as int) == padded_decimal(value as nat, i as nat),
        decreases CHECKPOINT_SEQ_WIDTH - i,
    {
        let c = chars[start + i];
        assert(c == tail[i as int]);
        match digit_value(c) {
            Some(d) => {
                let next = value * 10 + d as u128;
                proof {
                    assert(next as nat / 10 == value as nat);
                    assert(next as nat % 10 == d as nat);
                    assert(tail.take(i + 1) =~= tail.take(i as int).push(c));
                    assert(pow10(i as nat + 1) == 10 * pow10(i as nat));
                    lemma_pow10_bound(i as nat + 1);
                }
                value = next;
            },
            None => {
                assert forall|s: u64| !#[trigger] ends_in_seq(key@, s) by {
                    if ends_in_seq(key@, s) {
                        lemma_padded_digits(s as nat, CHECKPOINT_SEQ_WIDTH as nat, i as int);
                    }
                }
                return None;
            },
        }
        i = i + 1;
    }
    assert(tail.take(i as int) =~= tail);
    assert forall|s: u64| #[trigger] ends_in_seq(key@, s) implies s == value by {
        lemma_one_seq(key@, value as nat, s);
    }
    if value > u64::MAX as u128 {
        None
    } else {
        Some(value as u64)
    }
}

proof fn lemma_pow10_bound(e: nat)
    requires
        e <= CHECKPOINT_SEQ_WIDTH,
    ensures
        pow10(e) <= pow10(CHECKPOINT_SEQ_WIDTH as nat),
{
    reveal_with_fuel(pow10, 21);
}

/// The key of a checkpoint ends in its number.
pub proof fn law_checkpoint_key_shows_number(tenant_id: Seq<char>, agent_id: Seq<char>, seq: u64)
    ensures
        ends_in_seq(record_key(tenant_id, agent_id, RecordName::Checkpoint(seq)), seq),
{
    let key = record_key(tenant_id, agent_id, RecordName::Checkpoint(seq));
    let number = padded_decimal(seq as nat, CHECKPOINT_SEQ_WIDTH as nat);
    lemma_padded_len(seq as nat, CHECKPOINT_SEQ_WIDTH as nat);
    assert(key.skip(key.len() - CHECKPOINT_SEQ_WIDTH) =~= number);
}

} // verus!
