//! Checkpoints: their integrity, and which of them an agent is recovered from.

use crate::digest::sha256;
#[allow(unused_imports)]
use crate::digest::sha256_of;
use crate::error::{StateError, StateResult};
use crate::keys::checkpoint_key_seq;
#[allow(unused_imports)]
use crate::keys::{
    ends_in_seq, law_checkpoint_key_shows_number, law_key_ends_in_one_number, record_key,
    RecordName,
};
use crate::proto::{AgentStateRecord, CheckpointRecord, WorkingMemoryRecord};
use vstd::prelude::*;

verus! {

/// A stored checkpoint, with the encodings of the two records that it holds.
#[derive(Debug)]
pub struct CheckpointImage {
    pub record: CheckpointRecord,
    pub state_bytes: Vec<u8>,
    pub memory_bytes: Vec<u8>,
}

/// The digest that a checkpoint of these two encoded records carries.
pub open spec fn checkpoint_digest(state_bytes: Seq<u8>, memory_bytes: Seq<u8>) -> Seq<u8> {
    sha256_of(state_bytes + memory_bytes)
}

impl CheckpointImage {
    /// Whether the digest fits the contents.
    pub open spec fn intact(&self) -> bool {
        self.record.sha256_digest@ == checkpoint_digest(self.state_bytes@, self.memory_bytes@)
    }

    /// Whether an agent can be recovered from this checkpoint: it is intact and holds both
    /// records.
    pub open spec fn valid(&self) -> bool {
        self.intact() && self.record.state_snapshot is Some && self.record.memory_snapshot is Some
    }

    /// Whether the checkpoint is one of this agent.
    pub open spec fn belongs_to(&self, tenant_id: Seq<char>, agent_id: Seq<char>) -> bool {
        self.record.tenant_id@ == tenant_id && self.record.agent_id@ == agent_id
    }

    /// Whether this agent can be recovered from this checkpoint.
    pub open spec fn serves(&self, tenant_id: Seq<char>, agent_id: Seq<char>) -> bool {
        self.belongs_to(tenant_id, agent_id) && self.valid()
    }

    /// Checks the digest.
    pub fn verify(&self) -> (result: StateResult<()>)
        ensures
            result is Ok <==> self.intact(),
            result matches Err(e) ==> e matches StateError::CheckpointCorrupted { agent_id, seq }
                && agent_id@ == self.record.agent_id@ && seq == self.record.checkpoint_seq,
    {
        let digest = digest_of(self.state_bytes.as_slice(), self.memory_bytes.as_slice());
        if same_bytes(self.record.sha256_digest.as_slice(), digest.as_slice()) {
            Ok(())
        } else {
            Err(
                StateError::CheckpointCorrupted {
                    agent_id: self.record.agent_id.clone(),
                    seq: self.record.checkpoint_seq,
                },
            )
        }
    }
}

/// The digest over an encoded state record followed by an encoded working memory record.
pub fn digest_of(state_bytes: &[u8], memory_bytes: &[u8]) -> (digest: Vec<u8>)
    ensures
        digest@ == checkpoint_digest(state_bytes@, memory_bytes@),
        digest@.len() == 32,
{
    let mut data: Vec<u8> = Vec::new();
    data.extend_from_slice(state_bytes);
    data.extend_from_slice(memory_bytes);
    assert(data@ =~= state_bytes@ + memory_bytes@);
    sha256(data.as_slice())
}

/// Whether two byte strings are equal.
fn same_bytes(a: &[u8], b: &[u8]) -> (same: bool)
    ensures
        same == (a@ == b@),
{
    if a.len() != b.len() {
        return false;
    }
    let mut i: usize = 0;
    while i < a.len()
        invariant
            i <= a@.len(),
            a@.len() == b@.len(),
            forall|j: int| 0 <= j < i ==> a@[j] == b@[j],
        decreases a@.len() - i,
    {
        if a[i] != b[i] {
            return false;
        }
        i = i + 1;
    }
    assert(a@ =~= b@);
    true
}

/// `i` is the valid checkpoint of an agent with the highest sequence number, the first of them
/// where several share it.
pub open spec fn is_latest_valid(
    images: Seq<CheckpointImage>,
    tenant_id: Seq<char>,
    agent_id: Seq<char>,
    i: int,
) -> bool {
    &&& 0 <= i < images.len()
    &&& images[i].serves(tenant_id, agent_id)
    &&& forall|j: int|
        0 <= j < images.len() && (#[trigger] images[j]).serves(tenant_id, agent_id) ==> {
            ||| images[j].record.checkpoint_seq < images[i].record.checkpoint_seq
            ||| images[j].record.checkpoint_seq == images[i].record.checkpoint_seq && i <= j
        }
}

/// Whether any of the checkpoints is a valid one of an agent.
pub open spec fn any_valid(
    images: Seq<CheckpointImage>,
    tenant_id: Seq<char>,
    agent_id: Seq<char>,
) -> bool {
    exists|i: int| 0 <= i < images.len() && (#[trigger] images[i]).serves(tenant_id, agent_id)
}

/// At most one checkpoint is the latest valid one: recovery leaves no choice.
pub proof fn law_latest_valid_is_unique(
    images: Seq<CheckpointImage>,
    tenant_id: Seq<char>,
    agent_id: Seq<char>,
    i: int,
    j: int,
)
    requires
        is_latest_valid(images, tenant_id, agent_id, i),
        is_latest_valid(images, tenant_id, agent_id, j),
    ensures
        i == j,
{
}

/// Index of the latest valid checkpoint of an agent.
fn latest_valid(images: &Vec<CheckpointImage>, tenant_id: &String, agent_id: &String) -> (best:
    Option<usize>)
    ensures
        best matches Some(i) ==> is_latest_valid(images@, tenant_id@, agent_id@, i as int),
        best is None ==> !any_valid(images@, tenant_id@, agent_id@),
{
    let ghost tenant = tenant_id@;
    let ghost agent = agent_id@;
    let mut best: Option<usize> = None;
    let mut i: usize = 0;
    while i < images.len()
        invariant
            i <= images@.len(),
            tenant == tenant_id@,
            agent == agent_id@,
            best matches Some(b) ==> b < i && is_latest_valid(
                images@.take(i as int),
                tenant,
                agent,
                b as int,
            ),
            best is None ==> !any_valid(images@.take(i as int), tenant, agent),
        decreases images@.len() - i,
    {
        let ghost before = images@.take(i as int);
        let ghost after = images@.take(i + 1);
        assert(after =~= before.push(images@[i as int]));
        let image = &images[i];
        let own = image.record.tenant_id == *tenant_id && image.record.agent_id == *agent_id;
        let holds_both = image.record.state_snapshot.is_some()
            && image.record.memory_snapshot.is_some();
        let intact = image.verify().is_ok();
        if own && holds_both && intact {
            assert(after[i as int].serves(tenant, agent));
            match best {
                None => {
                    assert forall|j: int| 0 <= j < i implies !(#[trigger] after[j]).serves(
                        tenant,
                        agent,
                    ) by {
                        assert(after[j] == before[j]);
                    }
                    best = Some(i);
                },
                Some(b) => {
                    assert(after[b as int] == before[b as int]);
                    if images[b].record.checkpoint_seq < image.record.checkpoint_seq {
                        assert forall|j: int|
                            0 <= j < i && (#[trigger] after[j]).serves(tenant, agent) implies
                            after[j].record.checkpoint_seq < after[i as int].record.checkpoint_seq by {
                            assert(after[j] == before[j]);
                        }
                        best = Some(i);
                    } else {
                        assert forall|j: int|
                            0 <= j < after.len() && (#[trigger] after[j]).serves(tenant, agent)
                            implies {
                            ||| after[j].record.checkpoint_seq
                                < after[b as int].record.checkpoint_seq
                            ||| after[j].record.checkpoint_seq
                                == after[b as int].record.checkpoint_seq && b <= j
                        } by {
                            if j < i {
                                assert(after[j] == before[j]);
                            }
                        }
                    }
                },
            }
        } else {
            assert(!after[i as int].serves(tenant, agent));
            assert forall|j: int| 0 <= j < i implies #[trigger] after[j] == before[j] by {}
        }
        i = i + 1;
    }
    assert(images@.take(i as int) =~= images@);
    best
}

/// The two records of an agent, restored together.
#[derive(Debug)]
pub struct RecoveredAgent {
    pub state: AgentStateRecord,
    pub working_memory: WorkingMemoryRecord,
}

/// Whether `recovered` are the two records of checkpoint `i`, with the state referring to that
/// version of the working memory.
pub open spec fn is_restored_from(
    images: Seq<CheckpointImage>,
    i: int,
    recovered: RecoveredAgent,
) -> bool {
    &&& images[i].record.memory_snapshot == Some(recovered.working_memory)
    &&& images[i].record.state_snapshot matches Some(state)
    &&& recovered.state == AgentStateRecord {
        working_memory_version: recovered.working_memory.version,
        ..state
    }
}

/// Recovers an agent from its latest valid checkpoint. Checkpoints of other agents are passed over.
pub fn recover_from_checkpoint(
    tenant_id: &str,
    agent_id: &str,
    images: Vec<CheckpointImage>,
) -> (result: StateResult<RecoveredAgent>)
    ensures
        result is Ok <==> any_valid(images@, tenant_id@, agent_id@),
        result matches Ok(recovered) ==> exists|i: int|
            is_latest_valid(images@, tenant_id@, agent_id@, i) && #[trigger] is_restored_from(
                images@,
                i,
                recovered,
            ),
        result matches Err(e) ==> e matches StateError::NoCheckpointAvailable {
            tenant_id: t,
            agent_id: a,
        } && t@ == tenant_id@ && a@ == agent_id@,
{
    let ghost all = images@;
    let mut images = images;
    let tenant = tenant_id.to_owned();
    let agent = agent_id.to_owned();
    if let Some(i) = latest_valid(&images, &tenant, &agent) {
        let image = images.swap_remove(i);
        assert(is_latest_valid(all, tenant_id@, agent_id@, i as int));
        assert(all[i as int].valid());
        if let Some(state) = image.record.state_snapshot {
            if let Some(working_memory) = image.record.memory_snapshot {
                let mut state = state;
                state.working_memory_version = working_memory.version;
                let recovered = RecoveredAgent { state, working_memory };
                assert(is_restored_from(all, i as int, recovered));
                return Ok(recovered);
            }
        }
        assert(false);
    }
    Err(
        StateError::NoCheckpointAvailable {
            tenant_id: tenant,
            agent_id: agent,
        },
    )
}

/// Whether `greatest` is the greatest number in the keys of some checkpoints. Keys without a number
/// do not count.
pub open spec fn is_greatest_seq(keys: Seq<String>, greatest: Option<u64>) -> bool {
    match greatest {
        Some(seq) => (exists|i: int|
            0 <= i < keys.len() && ends_in_seq(#[trigger] keys[i]@, seq)) && (forall|i: int, s: u64|
            0 <= i < keys.len() && #[trigger] ends_in_seq(keys[i]@, s) ==> s <= seq),
        None => forall|i: int, s: u64|
            0 <= i < keys.len() ==> !#[trigger] ends_in_seq(keys[i]@, s),
    }
}

/// The greatest number in the keys of some checkpoints.
pub fn greatest_seq(keys: &Vec<String>) -> (greatest: Option<u64>)
    ensures
        is_greatest_seq(keys@, greatest),
{
    let mut greatest: Option<u64> = None;
    let mut i: usize = 0;
    while i < keys.len()
        invariant
            i <= keys@.len(),
            greatest matches Some(seq) ==> exists|k: int|
                0 <= k < i && ends_in_seq(#[trigger] keys@[k]@, seq),
            forall|k: int, s: u64|
                0 <= k < i && #[trigger] ends_in_seq(keys@[k]@, s) ==> greatest is Some && s
                    <= greatest->0,
        decreases keys@.len() - i,
    {
        if let Some(seq) = checkpoint_key_seq(keys[i].as_str()) {
            let greater = match greatest {
                Some(known) => known < seq,
                None => true,
            };
            if greater {
                greatest = Some(seq);
            }
        }
        i = i + 1;
    }
    greatest
}

/// Whether a checkpoint is one of an agent, holds both records, and carries the SHA-256 digest of
/// their encodings, state first.
pub open spec fn is_whole(
    image: CheckpointImage,
    tenant_id: Seq<char>,
    agent_id: Seq<char>,
) -> bool {
    &&& image.record.tenant_id@ == tenant_id
    &&& image.record.agent_id@ == agent_id
    &&& image.record.state_snapshot is Some
    &&& image.record.memory_snapshot is Some
    &&& image.record.sha256_digest@ == sha256_of(image.state_bytes@ + image.memory_bytes@)
}

/// An agent is recovered from a whole checkpoint of its own that no other has a greater number
/// than. Both records come from it, the state set to the version of the working memory.
pub proof fn law_recovery_takes_the_latest_whole_checkpoint(
    tenant_id: &str,
    agent_id: &str,
    images: Vec<CheckpointImage>,
    recovered: RecoveredAgent,
)
    requires
        call_ensures(recover_from_checkpoint, (tenant_id, agent_id, images), Ok(recovered)),
    ensures
        exists|i: int|
            {
                &&& 0 <= i < images@.len()
                &&& is_whole(#[trigger] images@[i], tenant_id@, agent_id@)
                &&& forall|j: int|
                    0 <= j < images@.len() && is_whole(#[trigger] images@[j], tenant_id@, agent_id@)
                        ==> images@[j].record.checkpoint_seq <= images@[i].record.checkpoint_seq
                &&& images@[i].record.memory_snapshot == Some(recovered.working_memory)
                &&& images@[i].record.state_snapshot == Some(
                    AgentStateRecord {
                        working_memory_version: images@[i].record.state_snapshot->0.working_memory_version,
                        ..recovered.state
                    },
                )
                &&& recovered.state.working_memory_version == recovered.working_memory.version
            },
{
    let i = choose|i: int|
        is_latest_valid(images@, tenant_id@, agent_id@, i) && #[trigger] is_restored_from(
            images@,
            i,
            recovered,
        );
    assert(is_whole(images@[i], tenant_id@, agent_id@));
    assert forall|j: int|
        0 <= j < images@.len() && is_whole(
            #[trigger] images@[j],
            tenant_id@,
            agent_id@,
        ) implies images@[j].record.checkpoint_seq <= images@[i].record.checkpoint_seq by {
        assert(images@[j].serves(tenant_id@, agent_id@));
    }
}

/// An agent with a whole checkpoint is recovered, and one without is not.
pub proof fn law_recovery_needs_a_whole_checkpoint(
    tenant_id: &str,
    agent_id: &str,
    images: Vec<CheckpointImage>,
    result: StateResult<RecoveredAgent>,
)
    requires
        call_ensures(recover_from_checkpoint, (tenant_id, agent_id, images), result),
    ensures
        result is Ok <==> exists|i: int|
            0 <= i < images@.len() && is_whole(#[trigger] images@[i], tenant_id@, agent_id@),
        result matches Err(e) ==> e matches StateError::NoCheckpointAvailable {
            tenant_id: t,
            agent_id: a,
        } && t@ == tenant_id@ && a@ == agent_id@,
{
    assert forall|i: int| 0 <= i < images@.len() implies (#[trigger] images@[i]).serves(
        tenant_id@,
        agent_id@,
    ) == is_whole(images@[i], tenant_id@, agent_id@) by {}
}

/// A checkpoint is intact exactly where it carries the SHA-256 digest of its two encodings.
pub proof fn law_digest_shows_corruption(image: CheckpointImage, result: StateResult<()>)
    requires
        call_ensures(CheckpointImage::verify, (&image,), result),
    ensures
        result is Ok <==> image.record.sha256_digest@ == sha256_of(
            image.state_bytes@ + image.memory_bytes@,
        ),
        result matches Err(e) ==> e matches StateError::CheckpointCorrupted { agent_id, seq }
            && agent_id@ == image.record.agent_id@ && seq == image.record.checkpoint_seq,
{
}

/// Among the keys of checkpoints the greatest number is that of one of them, and no key has a
/// greater one.
pub proof fn law_greatest_number_is_found(
    keys: Vec<String>,
    tenant_id: Seq<char>,
    agent_id: Seq<char>,
    numbers: Seq<u64>,
    greatest: Option<u64>,
)
    requires
        call_ensures(greatest_seq, (&keys,), greatest),
        numbers.len() == keys@.len(),
        forall|i: int|
            0 <= i < numbers.len() ==> (#[trigger] keys@[i])@ == record_key(
                tenant_id,
                agent_id,
                RecordName::Checkpoint(numbers[i]),
            ),
    ensures
        match greatest {
            Some(seq) => numbers.contains(seq) && forall|i: int|
                0 <= i < numbers.len() ==> #[trigger] numbers[i] <= seq,
            None => numbers.len() == 0,
        },
{
    assert forall|i: int| 0 <= i < numbers.len() implies ends_in_seq(
        (#[trigger] keys@[i])@,
        numbers[i],
    ) by {
        law_checkpoint_key_shows_number(tenant_id, agent_id, numbers[i]);
    }
    match greatest {
        Some(seq) => {
            let i = choose|i: int| 0 <= i < keys@.len() && ends_in_seq(#[trigger] keys@[i]@, seq);
            law_key_ends_in_one_number(keys@[i]@, numbers[i], seq);
            assert(numbers[i] == seq);
            assert forall|i: int| 0 <= i < numbers.len() implies #[trigger] numbers[i] <= seq by {
                assert(ends_in_seq(keys@[i]@, numbers[i]));
            }
        },
        None => {
            if numbers.len() > 0 {
                assert(ends_in_seq(keys@[0]@, numbers[0]));
            }
        },
    }
}

} // verus!
