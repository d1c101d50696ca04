//! The state store: what its calls take and give, and which ids may stand in its keys.
//!
//! Every write carries the ETag that its writer has read. The store refuses it where the
//! record has changed since.

use crate::error::{StateError, StateResult};
#[allow(unused_imports)]
use crate::keys::{contains_sep, sep_at, valid_id};
use vstd::prelude::*;

verus! {

/// Version token of a stored record: a write supplies the one that it read.
#[derive(Debug, Clone)]
pub struct ETag(pub String);

/// The bytes of a stored record, with their ETag.
#[derive(Debug)]
pub struct StateRecord {
    pub value: Vec<u8>,
    pub etag: ETag,
}

/// How long a written record is kept.
#[derive(Debug, Clone, Copy, PartialEq, Eq, Structural)]
pub enum TtlPolicy {
    /// No TTL: until it is deleted.
    NoTtl,
    /// For this many seconds.
    Seconds(u64),
}

/// What the store answers to a write.
#[derive(Debug)]
pub enum WriteReply {
    /// The record is stored under a new ETag.
    Written(ETag),
    /// The supplied ETag is not that of the stored record: nothing was written.
    ETagMismatch,
    /// The store failed for another reason.
    Failed(String),
}

/// A named state component.
#[derive(Debug)]
pub struct DaprStateStore {
    store_name: String,
}

/// What `std` prints for a text between quotes, with `{:?}`.
pub uninterp spec fn debug_text(value: Seq<char>) -> Seq<char>;

/// `std`'s `Debug` of `str`, through `format!`. The contract names the text that comes out and
/// claims nothing else of it.
#[verifier::external_body]
fn quoted(value: &str) -> (text: String)
    ensures
        text@ == debug_text(value@),
{
    format!("{:?}", value)
}

/// The complaint about an id that may not stand in a key.
pub open spec fn id_complaint(value: Seq<char>, field: Seq<char>) -> Seq<char> {
    if contains_sep(value) {
        field + " must not contain '||': got "@ + debug_text(value)
    } else {
        field + " must not be empty"@
    }
}

impl DaprStateStore {
    /// Name of the component.
    pub closed spec fn name(&self) -> Seq<char> {
        self.store_name@
    }

    /// A store that goes by the name of its component.
    pub fn new(store_name: &str) -> (store: Self)
        ensures
            store.name() == store_name@,
    {
        DaprStateStore { store_name: store_name.to_owned() }
    }

    /// The name of the component.
    pub fn store_name(&self) -> (name: &str)
        ensures
            name@ == self.name(),
    {
        self.store_name.as_str()
    }

    /// Accepts a tenant or agent id that may stand in a key. An id with the separator in it
    /// would make keys ambiguous.
    pub fn validate_id(value: &str, field: &str) -> (result: StateResult<()>)
        ensures
            result is Ok <==> valid_id(value@),
            result matches Err(e) ==> e matches StateError::InvalidInput(reason) && reason@
                == id_complaint(value@, field@),
    {
        if has_sep(value) {
            let mut reason = field.to_owned();
            reason.append(" must not contain '||': got ");
            reason.append(quoted(value).as_str());
            return Err(StateError::InvalidInput(reason));
        }
        if value.is_empty() {
            let mut reason = field.to_owned();
            reason.append(" must not be empty");
            return Err(StateError::InvalidInput(reason));
        }
        Ok(())
    }

    /// The outcome of a write of `key`: a version mismatch is a conflict on that key.
    pub fn write_outcome(key: &str, reply: WriteReply) -> (result: StateResult<ETag>)
        ensures
            match reply {
                WriteReply::Written(etag) => result == Ok::<ETag, StateError>(etag),
                WriteReply::ETagMismatch => result matches Err(StateError::ETagConflict { key: k })
                    && k@ == key@,
                WriteReply::Failed(reason) => result == Err::<ETag, StateError>(
                    StateError::DaprError(reason),
                ),
            },
    {
        match reply {
            WriteReply::Written(etag) => Ok(etag),
            WriteReply::ETagMismatch => Err(StateError::ETagConflict { key: key.to_owned() }),
            WriteReply::Failed(reason) => Err(StateError::DaprError(reason)),
        }
    }
}

/// Whether the key separator occurs in `value`.
fn has_sep(value: &str) -> (found: bool)
    ensures
        found == contains_sep(value@),
{
    let mut after_bar = false;
    for c in it: value.chars()
        invariant
            it.seq() == value@,
            after_bar == (it.index() > 0 && value@[it.index() - 1] == '|'),
            forall|i: int| 0 <= i < it.index() - 1 ==> !sep_at(value@, i),
    {
        if c == '|' {
            if after_bar {
                assert(sep_at(value@, it.index() - 1));
                return true;
            }
            after_bar = true;
        } else {
            after_bar = false;
        }
    }
    false
}

/// An id may stand in a key exactly where it is not empty and no two bars follow one another in it.
pub proof fn law_ids_hold_no_separator(value: &str, field: &str, result: StateResult<()>)
    requires
        call_ensures(DaprStateStore::validate_id, (value, field), result),
    ensures
        result is Ok <==> value@.len() > 0 && forall|i: int|
            0 <= i < value@.len() - 1 ==> !(#[trigger] value@[i] == '|' && value@[i + 1] == '|'),
        result matches Err(e) ==> e matches StateError::InvalidInput(reason) && field@.is_prefix_of(
            reason@,
        ),
{
    if contains_sep(value@) {
        let i = choose|i: int| sep_at(value@, i);
        assert(value@[i] == '|' && value@[i + 1] == '|');
    }
    assert forall|i: int| 0 <= i < value@.len() - 1 && !contains_sep(value@) implies !(
    #[trigger] value@[i] == '|' && value@[i + 1] == '|') by {
        assert(!sep_at(value@, i));
    }
}

/// A write succeeds exactly where the store wrote, with the ETag that it gave. A version that has
/// changed is a conflict on the key that was written, and any other failure keeps its reason.
pub proof fn law_stale_write_is_a_conflict(key: &str, reply: WriteReply, result: StateResult<ETag>)
    requires
        call_ensures(DaprStateStore::write_outcome, (key, reply), result),
    ensures
        match reply {
            WriteReply::Written(etag) => result matches Ok(given) && given == etag,
            WriteReply::ETagMismatch => result matches Err(StateError::ETagConflict { key: k })
                && k@ == key@,
            WriteReply::Failed(reason) => result matches Err(StateError::DaprError(given)) && given
                == reason,
        },
{
}

} // verus!
