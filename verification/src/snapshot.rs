//! Migration of stored snapshots to the current version.
//!
//! A snapshot of an older version is brought up to date by the registered functions, one after
//! the other. Each leads from one version to a later one.

use crate::agent_error::MigrationError;
use serde_json::Value;
use std::collections::BTreeMap;
use vstd::prelude::*;

verus! {

/// Version of new snapshots.
pub const CURRENT_SNAPSHOT_VERSION: u32 = 1;

/// `serde_json::Value`, carried unseen.
#[verifier::external_type_specification]
#[verifier::external_body]
pub struct ExValue(Value);

/// Registry of migration functions, by the versions that they connect.
pub struct SnapshotMigrationRegistry<F> {
    migrations: BTreeMap<u64, F>,
}

/// Two versions in one number.
spec fn pair_code(versions: (u32, u32)) -> u64 {
    (versions.0 * 0x1_0000_0000 + versions.1) as u64
}

/// Whether functions lead from version `from` up to version `target`.
pub open spec fn leads_to<F>(steps: Map<(u32, u32), F>, from: u32, target: u32) -> bool
    decreases target - from,
{
    from == target || (from < target && exists|next: u32|
        from < next <= target && #[trigger] steps.contains_key((from, next)) && leads_to(
            steps,
            next,
            target,
        ))
}

/// Whether `next` is where to go from `from`: the closest version from which functions lead up
/// to `target`.
pub open spec fn is_next<F>(steps: Map<(u32, u32), F>, from: u32, next: u32, target: u32) -> bool {
    &&& from < next <= target
    &&& steps.contains_key((from, next))
    &&& leads_to(steps, next, target)
    &&& forall|other: u32|
        from < other < next && #[trigger] steps.contains_key((from, other)) ==> !leads_to(
            steps,
            other,
            target,
        )
}

/// Whether the function from `from` to `next` can turn `raw` into `mid`.
pub open spec fn steps_to<F: Fn(Value) -> Value>(
    steps: Map<(u32, u32), F>,
    raw: Value,
    from: u32,
    next: u32,
    mid: Value,
) -> bool {
    call_ensures(steps[(from, next)], (raw,), mid)
}

/// Whether `out` can come from `raw` of version `from` by the functions on the way up to
/// `target`.
pub open spec fn migrates<F: Fn(Value) -> Value>(
    steps: Map<(u32, u32), F>,
    raw: Value,
    from: u32,
    target: u32,
    out: Value,
) -> bool
    decreases target - from,
{
    if from >= target {
        out == raw
    } else {
        exists|next: u32, mid: Value|
            is_next(steps, from, next, target) && #[trigger] steps_to(steps, raw, from, next, mid)
                && migrates(steps, mid, next, target, out)
    }
}

impl<F: Fn(Value) -> Value> SnapshotMigrationRegistry<F> {
    /// The registered functions, by the versions that they connect.
    pub closed spec fn steps(&self) -> Map<(u32, u32), F> {
        Map::new(
            |versions: (u32, u32)| self.migrations@.contains_key(pair_code(versions)),
            |versions: (u32, u32)| self.migrations@[pair_code(versions)],
        )
    }

    /// Whether every registered function takes any value.
    pub open spec fn is_total(&self) -> bool {
        forall|versions: (u32, u32), raw: Value|
            self.steps().contains_key(versions) ==> #[trigger] call_requires(
                self.steps()[versions],
                (raw,),
            )
    }

    /// A registry without functions.
    pub fn new() -> (registry: Self)
        ensures
            registry.steps() == Map::<(u32, u32), F>::empty(),
            registry.is_total(),
    {
        let registry = SnapshotMigrationRegistry { migrations: BTreeMap::new() };
        assert(registry.steps() =~= Map::<(u32, u32), F>::empty());
        registry
    }

    /// Registers a function that takes snapshots of one version to another. It replaces the one
    /// between the same versions.
    pub fn register(&mut self, from_version: u32, to_version: u32, f: F)
        requires
            old(self).is_total(),
            forall|raw: Value| #[trigger] call_requires(f, (raw,)),
        ensures
            final(self).steps() == old(self).steps().insert((from_version, to_version), f),
            final(self).is_total(),
    {
        let code = Self::code(from_version, to_version);
        self.migrations.insert(code, f);
        proof {
            assert forall|versions: (u32, u32)|
                pair_code(versions) == code implies versions == (from_version, to_version) by {}
            assert(self.steps() =~= old(self).steps().insert((from_version, to_version), f));
        }
    }

    /// Brings a snapshot up to the current version. It fails where no registered functions lead
    /// there.
    pub fn migrate(&self, raw: Value, from_version: u32) -> (result: Result<Value, MigrationError>)
        requires
            self.is_total(),
        ensures
            match result {
                Ok(out) => leads_to(self.steps(), from_version, CURRENT_SNAPSHOT_VERSION)
                    && migrates(self.steps(), raw, from_version, CURRENT_SNAPSHOT_VERSION, out),
                Err(e) => !leads_to(self.steps(), from_version, CURRENT_SNAPSHOT_VERSION) && e
                    == (MigrationError::NoMigrationPath {
                    from_version,
                    to_version: CURRENT_SNAPSHOT_VERSION,
                }),
            },
    {
        if from_version != CURRENT_SNAPSHOT_VERSION && self.next_version(
            from_version,
            CURRENT_SNAPSHOT_VERSION,
        ).is_none() {
            return Err(
                MigrationError::NoMigrationPath {
                    from_version,
                    to_version: CURRENT_SNAPSHOT_VERSION,
                },
            );
        }
        Ok(self.migrate_from(raw, from_version, CURRENT_SNAPSHOT_VERSION))
    }

    fn code(from: u32, to: u32) -> (code: u64)
        ensures
            code == pair_code((from, to)),
    {
        (from as u64) * 0x1_0000_0000 + to as u64
    }

    fn step(&self, from: u32, to: u32) -> (f: Option<&F>)
        ensures
            f == (if self.steps().contains_key((from, to)) {
                Some(&self.steps()[(from, to)])
            } else {
                None
            }),
    {
        self.migrations.get(&Self::code(from, to))
    }

    /// Where to go from a version on the way to `target`.
    fn next_version(&self, from: u32, target: u32) -> (next: Option<u32>)
        ensures
            match next {
                Some(next) => is_next(self.steps(), from, next, target),
                None => from == target || !leads_to(self.steps(), from, target),
            },
        decreases target - from,
    {
        let mut next: u32 = from;
        while next < target
            invariant
                from <= next,
                from <= target ==> next <= target,
                forall|other: u32|
                    from < other <= next && #[trigger] self.steps().contains_key((from, other))
                        ==> !leads_to(self.steps(), other, target),
            decreases target - next,
        {
            next = next + 1;
            if self.step(from, next).is_some() {
                if next == target || self.next_version(next, target).is_some() {
                    return Some(next);
                }
            }
        }
        None
    }

    fn migrate_from(&self, raw: Value, from: u32, target: u32) -> (out: Value)
        requires
            self.is_total(),
            leads_to(self.steps(), from, target),
        ensures
            migrates(self.steps(), raw, from, target, out),
        decreases target - from,
    {
        if from == target {
            return raw;
        }
        match self.next_version(from, target) {
            Some(next) => match self.step(from, next) {
                Some(f) => {
                    let mid = f(raw);
                    let out = self.migrate_from(mid, next, target);
                    assert(steps_to(self.steps(), raw, from, next, mid));
                    out
                },
                None => raw,
            },
            None => raw,
        }
    }
}

impl<F: Fn(Value) -> Value> Default for SnapshotMigrationRegistry<F> {
    /// A registry without functions.
    fn default() -> (registry: Self)
        ensures
            registry.steps() == Map::<(u32, u32), F>::empty(),
            registry.is_total(),
    {
        Self::new()
    }
}

/// A snapshot of the current version is handed back as it came.
pub proof fn law_current_snapshot_is_unchanged<F: Fn(Value) -> Value>(
    steps: Map<(u32, u32), F>,
    raw: Value,
    out: Value,
)
    requires
        migrates(steps, raw, CURRENT_SNAPSHOT_VERSION, CURRENT_SNAPSHOT_VERSION, out),
    ensures
        out == raw,
{
}

/// Snapshots are never taken back to an earlier version.
pub proof fn law_no_downgrade<F>(steps: Map<(u32, u32), F>, from: u32, target: u32)
    requires
        from > target,
    ensures
        !leads_to(steps, from, target),
{
}

/// Registering one more function loses no way that there was.
pub proof fn law_registering_keeps_ways<F>(
    steps: Map<(u32, u32), F>,
    versions: (u32, u32),
    f: F,
    from: u32,
    target: u32,
)
    requires
        leads_to(steps, from, target),
    ensures
        leads_to(steps.insert(versions, f), from, target),
    decreases target - from,
{
    if from < target {
        let next = choose|next: u32|
            from < next <= target && #[trigger] steps.contains_key((from, next)) && leads_to(
                steps,
                next,
                target,
            );
        law_registering_keeps_ways(steps, versions, f, next, target);
        assert(steps.insert(versions, f).contains_key((from, next)));
    }
}

/// A snapshot of the current version is handed back as it came, one of a later version is refused,
/// and one of the version before goes through the function between the two, or is refused where
/// there is none.
pub proof fn law_snapshots_are_brought_up_to_date<F: Fn(Value) -> Value>(
    registry: SnapshotMigrationRegistry<F>,
    raw: Value,
    version: u32,
    result: Result<Value, MigrationError>,
)
    requires
        registry.is_total(),
        call_ensures(
            SnapshotMigrationRegistry::<F>::migrate,
            (&registry, raw, version),
            result,
        ),
    ensures
        version == 1 ==> result == Ok::<Value, MigrationError>(raw),
        version > 1 ==> result is Err,
        version == 0 ==> match result {
            Ok(out) => registry.steps().contains_key((0, 1)) && call_ensures(
                registry.steps()[(0, 1)],
                (raw,),
                out,
            ),
            Err(_) => !registry.steps().contains_key((0, 1)),
        },
        result matches Err(e) ==> e == (MigrationError::NoMigrationPath {
            from_version: version,
            to_version: 1,
        }),
{
    let steps = registry.steps();
    if version == 0 {
        reveal_with_fuel(leads_to, 3);
        reveal_with_fuel(migrates, 3);
        if let Ok(out) = result {
            let (next, mid) = choose|next: u32, mid: Value|
                is_next(steps, 0, next, 1) && #[trigger] steps_to(steps, raw, 0, next, mid)
                    && migrates(steps, mid, next, 1, out);
            assert(next == 1);
        } else if steps.contains_key((0, 1)) {
            assert(leads_to(steps, 1, 1));
            assert(leads_to(steps, 0, 1));
        }
    }
}

/// Registering a function concerns its own pair of versions and no other.
pub proof fn law_registering_concerns_one_pair<F: Fn(Value) -> Value>(
    registry: &mut SnapshotMigrationRegistry<F>,
    from_version: u32,
    to_version: u32,
    f: F,
    other: (u32, u32),
)
    requires
        old(registry).is_total(),
        forall|raw: Value| #[trigger] call_requires(f, (raw,)),
        call_ensures(
            SnapshotMigrationRegistry::<F>::register,
            (registry, from_version, to_version, f),
            (),
        ),
    ensures
        final(registry).steps().contains_key((from_version, to_version)),
        final(registry).steps()[(from_version, to_version)] == f,
        other != (from_version, to_version) ==> (final(registry).steps().contains_key(other)
            <==> old(registry).steps().contains_key(other)),
        other != (from_version, to_version) && old(registry).steps().contains_key(other)
            ==> final(registry).steps()[other] == old(registry).steps()[other],
{
}

} // verus!
