//! The chain of schema migrations.
//!
//! Records of an older schema are brought forward step by step when their agent is hydrated. The
//! registry knows which versions each step connects and decides what comes next; running a step
//! on the bytes of a record belongs to the caller.

use crate::error::{StateError, StateResult};
use crate::LATEST_SCHEMA_VERSION;
use std::collections::BTreeMap;
use vstd::prelude::*;

verus! {

/// What to do next with the bytes of a record.
#[derive(Debug, Clone, Copy, PartialEq, Eq, Structural)]
pub enum MigrationAction {
    /// The bytes are of the latest schema: decode them.
    Decode,
    /// Run the step that is registered for version `from`. It gives bytes of version `to`.
    Migrate { from: u32, to: u32 },
}

/// Registry of the known migration steps, by the version that they start from.
#[derive(Debug)]
pub struct MigrationRegistry {
    migrations: BTreeMap<u32, u32>,
}

/// What comes next for bytes of `version`, given the registered steps.
pub open spec fn next_action(
    steps: Map<u32, u32>,
    record_type: Seq<char>,
    version: u32,
    result: StateResult<MigrationAction>,
) -> bool {
    if version >= LATEST_SCHEMA_VERSION {
        result == Ok::<MigrationAction, StateError>(MigrationAction::Decode)
    } else if steps.contains_key(version) {
        result == Ok::<MigrationAction, StateError>(
            MigrationAction::Migrate { from: version, to: steps[version] },
        )
    } else {
        is_unsupported(record_type, version, result)
    }
}

/// Whether `result` refuses a record of a type for its `version`.
pub open spec fn is_unsupported(
    record_type: Seq<char>,
    version: u32,
    result: StateResult<MigrationAction>,
) -> bool {
    result matches Err(e) && is_version_error(record_type, version, e)
}

/// Whether `e` refuses a record of a type for its schema version.
pub open spec fn is_version_error(record_type: Seq<char>, version: u32, e: StateError) -> bool {
    e matches StateError::UnsupportedSchemaVersion { record_type: t, found, max_known } && t@
        == record_type && found == version && max_known == LATEST_SCHEMA_VERSION
}

/// The error that refuses a record of a type for its schema version.
pub fn version_error(record_type: &str, version: u32) -> (e: StateError)
    ensures
        is_version_error(record_type@, version, e),
{
    StateError::UnsupportedSchemaVersion {
        record_type: record_type.to_owned(),
        found: version,
        max_known: LATEST_SCHEMA_VERSION,
    }
}

/// The version that bytes of `version` have after `n` steps. A version without a step, or one
/// that needs none, stays.
pub open spec fn version_after(steps: Map<u32, u32>, version: u32, n: nat) -> u32
    decreases n,
{
    if n == 0 || version >= LATEST_SCHEMA_VERSION || !steps.contains_key(version) {
        version
    } else {
        version_after(steps, steps[version], (n - 1) as nat)
    }
}

/// Whether every step leads to a later version.
pub open spec fn moves_forward(steps: Map<u32, u32>) -> bool {
    forall|v: u32| steps.contains_key(v) ==> v < #[trigger] steps[v]
}

impl MigrationRegistry {
    /// The registered steps: from version to version.
    pub closed spec fn steps(&self) -> Map<u32, u32> {
        self.migrations@
    }

    /// A registry without steps.
    pub fn new() -> (registry: Self)
        ensures
            registry.steps() == Map::<u32, u32>::empty(),
    {
        MigrationRegistry { migrations: BTreeMap::new() }
    }

    /// A registry of all known steps. There are none as long as there is one schema version.
    pub fn with_all_migrations() -> (registry: Self)
        ensures
            registry.steps() == Map::<u32, u32>::empty(),
    {
        Self::new()
    }

    /// Registers a step between two versions. It replaces the one from the same version.
    pub fn register(&mut self, from_version: u32, to_version: u32)
        ensures
            final(self).steps() == old(self).steps().insert(from_version, to_version),
    {
        self.migrations.insert(from_version, to_version);
    }

    /// Starts to bring bytes of a state record up to the latest schema. A version from the
    /// future is refused, as is one from which no step is known.
    pub fn apply_to_latest(&self, current_version: u32) -> (result: StateResult<MigrationAction>)
        ensures
            if current_version > LATEST_SCHEMA_VERSION {
                is_unsupported("AgentStateRecord"@, current_version, result)
            } else {
                next_action(self.steps(), "AgentStateRecord"@, current_version, result)
            },
    {
        if current_version > LATEST_SCHEMA_VERSION {
            return Err(version_error("AgentStateRecord", current_version));
        }
        self.step_applied(current_version)
    }

    /// Goes on once a step has given bytes of a state record of `version`.
    pub fn step_applied(&self, version: u32) -> (result: StateResult<MigrationAction>)
        ensures
            next_action(self.steps(), "AgentStateRecord"@, version, result),
    {
        self.next_step("AgentStateRecord", version)
    }

    /// What comes next for a record of a type that is of `version`.
    pub fn next_step(&self, record_type: &str, version: u32) -> (result: StateResult<
        MigrationAction,
    >)
        ensures
            next_action(self.steps(), record_type@, version, result),
    {
        if version >= LATEST_SCHEMA_VERSION {
            return Ok(MigrationAction::Decode);
        }
        match self.migrations.get(&version) {
            Some(to) => Ok(MigrationAction::Migrate { from: version, to: *to }),
            None => Err(version_error(record_type, version)),
        }
    }
}

impl Default for MigrationRegistry {
    /// All known steps.
    fn default() -> (registry: Self)
        ensures
            registry.steps() == Map::<u32, u32>::empty(),
    {
        Self::with_all_migrations()
    }
}

/// Steps that lead to later versions come to an end: after no more of them than there are
/// versions up to the latest, the record is of the latest schema or has no step left.
pub proof fn law_forward_steps_end(steps: Map<u32, u32>, version: u32, n: nat)
    requires
        moves_forward(steps),
        version + n >= LATEST_SCHEMA_VERSION,
    ensures
        ({
            let last = version_after(steps, version, n);
            last >= LATEST_SCHEMA_VERSION || !steps.contains_key(last)
        }),
    decreases n,
{
    if n > 0 && version < LATEST_SCHEMA_VERSION && steps.contains_key(version) {
        law_forward_steps_end(steps, steps[version], (n - 1) as nat);
    }
}

/// Following the registry's answers follows `version_after`: each step that an answer asks for
/// gives the version that one more step leads to.
pub proof fn law_answers_follow_steps(
    steps: Map<u32, u32>,
    record_type: Seq<char>,
    version: u32,
    n: nat,
    result: StateResult<MigrationAction>,
)
    requires
        next_action(steps, record_type, version_after(steps, version, n), result),
    ensures
        result matches Ok(MigrationAction::Migrate { from, to }) ==> from == version_after(
            steps,
            version,
            n,
        ) && to == version_after(steps, version, n + 1),
    decreases n,
{
    if n > 0 && version < LATEST_SCHEMA_VERSION && steps.contains_key(version) {
        law_answers_follow_steps(steps, record_type, steps[version], (n - 1) as nat, result);
    }
    if result matches Ok(MigrationAction::Migrate { .. }) {
        reveal_with_fuel(version_after, 2);
    }
}

/// A state record of the latest schema is decoded, one of a newer schema is refused, and an older
/// one is handed to the step that was registered for its version, or refused where there is none.
/// The refusal names the version.
pub proof fn law_only_older_records_are_migrated(
    registry: MigrationRegistry,
    version: u32,
    result: StateResult<MigrationAction>,
)
    requires
        call_ensures(MigrationRegistry::apply_to_latest, (&registry, version), result),
    ensures
        version == 1 <==> (result matches Ok(MigrationAction::Decode)),
        version > 1 ==> result is Err,
        version < 1 ==> (result is Ok <==> registry.steps().contains_key(version)),
        match result {
            Ok(MigrationAction::Migrate { from, to }) => from == version && to
                == registry.steps()[version],
            Err(StateError::UnsupportedSchemaVersion { record_type, found, max_known }) => {
                record_type@ == "AgentStateRecord"@ && found == version && max_known == 1
            },
            Err(_) => false,
            Ok(MigrationAction::Decode) => true,
        },
{
}

/// After a step the chain goes on from the version that it gave: up to the latest with the step
/// for that version, and to decoding from the latest on.
pub proof fn law_chain_goes_on_from_each_step(
    registry: MigrationRegistry,
    version: u32,
    result: StateResult<MigrationAction>,
)
    requires
        call_ensures(MigrationRegistry::step_applied, (&registry, version), result),
    ensures
        version >= 1 <==> (result matches Ok(MigrationAction::Decode)),
        version < 1 ==> (result is Ok <==> registry.steps().contains_key(version)),
        result matches Ok(MigrationAction::Migrate { from, to }) ==> from == version && to
            == registry.steps()[version],
        result matches Err(e) ==> e matches StateError::UnsupportedSchemaVersion { found, .. }
            && found == version,
{
}

/// Registering a step concerns its own version: that one leads to the new version from then on,
/// and every other goes on as before.
pub proof fn law_registering_concerns_one_version(
    registry: &mut MigrationRegistry,
    from_version: u32,
    to_version: u32,
    other: u32,
)
    requires
        call_ensures(MigrationRegistry::register, (registry, from_version, to_version), ()),
    ensures
        final(registry).steps().contains_key(from_version),
        final(registry).steps()[from_version] == to_version,
        other != from_version ==> (final(registry).steps().contains_key(other)
            <==> old(registry).steps().contains_key(other)),
        other != from_version && old(registry).steps().contains_key(other)
            ==> final(registry).steps()[other] == old(registry).steps()[other],
{
}

} // verus!
