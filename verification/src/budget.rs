//! Token budgets of the hosted model API.
//!
//! Tokens are counted for all tenants together and for each tenant, and the counts start again
//! with every window. The budget is advisory: it keeps the runtime from trying a route that is
//! clearly exhausted.

use dashmap::DashMap;
use std::time::{Duration, Instant};
use vstd::prelude::*;

verus! {

/// Length of a budget window in seconds.
pub const WINDOW_DURATION_SECS: u64 = 3600;

/// `dashmap::DashMap`, carried unseen.
#[verifier::external_type_specification]
#[verifier::external_body]
#[verifier::reject_recursive_types(K)]
#[verifier::reject_recursive_types(V)]
#[verifier::reject_recursive_types(S)]
pub struct ExDashMap<K, V, S>(DashMap<K, V, S>);

/// The tokens that a map counts, by tenant.
pub uninterp spec fn counters(map: DashMap<String, u64>) -> Map<Seq<char>, u64>;

/// `DashMap::new`: a map without entries.
#[verifier::external_body]
fn new_counters() -> (map: DashMap<String, u64>)
    ensures
        counters(map) == (Map::<Seq<char>, u64>::empty()),
{
    DashMap::new()
}

/// `DashMap::get`: the value under a key, or nothing.
#[verifier::external_body]
fn counter(map: &DashMap<String, u64>, tenant_id: &str) -> (used: Option<u64>)
    ensures
        used == (if counters(*map).contains_key(tenant_id@) {
            Some(counters(*map)[tenant_id@])
        } else {
            None
        }),
{
    map.get(tenant_id).map(|used| *used.value())
}

/// `DashMap::insert`: one entry is added or replaced.
#[verifier::external_body]
fn set_counter(map: &mut DashMap<String, u64>, tenant_id: String, used: u64)
    ensures
        counters(*final(map)) == counters(*old(map)).insert(tenant_id@, used),
{
    map.insert(tenant_id, used);
}

/// `DashMap::alter_all` with `emptied`: every key stays, with the value that `emptied` gives.
#[verifier::external_body]
fn empty_counters(map: &mut DashMap<String, u64>)
    ensures
        counters(*final(map)) == all_emptied(counters(*old(map))),
{
    map.alter_all(|_, used| emptied(used))
}

/// The count of a tenant when a new window starts.
fn emptied(used: u64) -> (count: u64)
    ensures
        count == 0,
{
    0
}

/// The counts when a new window starts: tenants stay known, with nothing used.
pub open spec fn all_emptied(used: Map<Seq<char>, u64>) -> Map<Seq<char>, u64> {
    used.map_values(|count: u64| 0u64)
}

/// The tokens that a tenant has used.
pub open spec fn used_by(used: Map<Seq<char>, u64>, tenant_id: Seq<char>) -> u64 {
    if used.contains_key(tenant_id) {
        used[tenant_id]
    } else {
        0
    }
}

/// Whether a tenant is within its limit. One that has not used anything yet always is.
pub open spec fn tenant_has_room(
    used: Map<Seq<char>, u64>,
    tenant_id: Seq<char>,
    per_tenant_limit: u64,
) -> bool {
    used.contains_key(tenant_id) ==> used[tenant_id] < per_tenant_limit
}

/// The sum of two counts, which starts again at zero after the largest count.
pub open spec fn count_sum(count: u64, tokens: u64) -> u64 {
    ((count + tokens) % 0x1_0000_0000_0000_0000) as u64
}

/// Global and per-tenant token budget.
pub struct ClaudeBudgetGate {
    global_used: u64,
    global_limit: u64,
    tenant_used: DashMap<String, u64>,
    per_tenant_limit: u64,
    window_start: Instant,
    window_duration_secs: u64,
}

impl ClaudeBudgetGate {
    /// Tokens used in this window by all tenants.
    pub closed spec fn global_used(&self) -> u64 {
        self.global_used
    }

    /// Tokens used in this window by each tenant that is known.
    pub closed spec fn tenant_used(&self) -> Map<Seq<char>, u64> {
        counters(self.tenant_used)
    }

    /// Tokens that all tenants may use in a window.
    pub closed spec fn global_limit(&self) -> u64 {
        self.global_limit
    }

    /// Tokens that one tenant may use in a window.
    pub closed spec fn per_tenant_limit(&self) -> u64 {
        self.per_tenant_limit
    }

    /// Length of a window in seconds.
    pub closed spec fn window_secs(&self) -> u64 {
        self.window_duration_secs
    }

    /// When the window started.
    pub closed spec fn window_started(&self) -> Instant {
        self.window_start
    }

    /// Whether the window started at a reading of `Instant::now`.
    pub open spec fn starts_now(&self) -> bool {
        call_ensures(Instant::now, (), self.window_started())
    }

    /// Whether `secs` are the whole seconds that `Instant::elapsed` gave for the start of the
    /// window.
    pub open spec fn has_run_for(&self, secs: u64) -> bool {
        exists|elapsed: Duration| #[trigger]
            call_ensures(Instant::elapsed, (&self.window_started(),), elapsed) && call_ensures(
                Duration::as_secs,
                (&elapsed,),
                secs,
            )
    }

    /// Whether two budgets have the same limits and the same window length.
    pub open spec fn same_limits(&self, other: &Self) -> bool {
        &&& self.global_limit() == other.global_limit()
        &&& self.per_tenant_limit() == other.per_tenant_limit()
        &&& self.window_secs() == other.window_secs()
    }

    /// Whether there is budget for a tenant.
    pub open spec fn has_room(&self, tenant_id: Seq<char>) -> bool {
        &&& self.global_used() < self.global_limit()
        &&& tenant_has_room(self.tenant_used(), tenant_id, self.per_tenant_limit())
    }

    /// What a budget is after `elapsed_secs` seconds of its window, where the clock reads `now`:
    /// once the window is over, the counts are emptied and a new window starts.
    pub open spec fn is_after(&self, before: &Self, elapsed_secs: u64, now: Instant) -> bool {
        &&& self.same_limits(before)
        &&& if elapsed_secs >= before.window_secs() {
            &&& self.global_used() == 0
            &&& self.tenant_used() == all_emptied(before.tenant_used())
            &&& self.window_started() == now
            &&& self.starts_now()
        } else {
            &&& self.global_used() == before.global_used()
            &&& self.tenant_used() == before.tenant_used()
            &&& self.window_started() == before.window_started()
        }
    }

    /// What a budget is after a tenant has used some tokens: the counts of all and of that tenant
    /// have grown, and all else stays.
    pub open spec fn is_recorded(&self, before: &Self, tenant_id: Seq<char>, tokens: u64) -> bool {
        &&& self.same_limits(before)
        &&& self.window_started() == before.window_started()
        &&& self.global_used() == count_sum(before.global_used(), tokens)
        &&& self.tenant_used() == before.tenant_used().insert(
            tenant_id,
            count_sum(used_by(before.tenant_used(), tenant_id), tokens),
        )
    }

    /// A budget with nothing used.
    pub fn new(global_hourly_limit: u64, per_tenant_hourly_limit: u64) -> (gate: Self)
        ensures
            gate.global_used() == 0,
            gate.tenant_used() == Map::<Seq<char>, u64>::empty(),
            gate.global_limit() == global_hourly_limit,
            gate.per_tenant_limit() == per_tenant_hourly_limit,
            gate.window_secs() == WINDOW_DURATION_SECS,
            gate.starts_now(),
    {
        ClaudeBudgetGate {
            global_used: 0,
            global_limit: global_hourly_limit,
            tenant_used: new_counters(),
            per_tenant_limit: per_tenant_hourly_limit,
            window_start: Instant::now(),
            window_duration_secs: WINDOW_DURATION_SECS,
        }
    }

    /// Whether there is budget for a tenant now. A window that is over is reset first.
    pub fn has_capacity(&mut self, tenant_id: &str) -> (available: bool)
        ensures
            exists|elapsed_secs: u64, now: Instant|
                old(self).has_run_for(elapsed_secs) && #[trigger] final(self).is_after(
                    old(self),
                    elapsed_secs,
                    now,
                ),
            available == final(self).has_room(tenant_id@),
    {
        let elapsed = self.window_start.elapsed();
        let elapsed_secs = elapsed.as_secs();
        assert(call_ensures(Instant::elapsed, (&old(self).window_started(),), elapsed));
        assert(old(self).has_run_for(elapsed_secs));
        let available = self.has_capacity_after(tenant_id, elapsed_secs);
        assert(exists|now: Instant| #[trigger] self.is_after(old(self), elapsed_secs, now));
        available
    }

    /// Whether there is budget for a tenant when `elapsed_secs` seconds of the window have
    /// passed. A window that is over is reset first.
    pub fn has_capacity_after(&mut self, tenant_id: &str, elapsed_secs: u64) -> (available: bool)
        ensures
            exists|now: Instant| #[trigger] final(self).is_after(old(self), elapsed_secs, now),
            available == final(self).has_room(tenant_id@),
    {
        self.maybe_reset_window(elapsed_secs);
        self.check_global() && self.check_tenant(tenant_id)
    }

    /// Counts the tokens of a response. A count that overflows starts again at zero.
    pub fn record_usage(&mut self, tenant_id: &str, tokens: u64)
        ensures
            final(self).is_recorded(old(self), tenant_id@, tokens),
    {
        self.global_used = self.global_used.wrapping_add(tokens);
        let used: u64 = match counter(&self.tenant_used, tenant_id) {
            Some(used) => used,
            None => 0,
        };
        set_counter(&mut self.tenant_used, tenant_id.to_owned(), used.wrapping_add(tokens));
    }

    fn check_global(&self) -> (available: bool)
        ensures
            available == (self.global_used() < self.global_limit()),
    {
        self.global_used < self.global_limit
    }

    fn check_tenant(&self, tenant_id: &str) -> (available: bool)
        ensures
            available == tenant_has_room(self.tenant_used(), tenant_id@, self.per_tenant_limit()),
    {
        match counter(&self.tenant_used, tenant_id) {
            Some(used) => used < self.per_tenant_limit,
            None => true,
        }
    }

    fn maybe_reset_window(&mut self, elapsed_secs: u64)
        ensures
            exists|now: Instant| #[trigger] final(self).is_after(old(self), elapsed_secs, now),
    {
        if elapsed_secs >= self.window_duration_secs {
            self.global_used = 0;
            empty_counters(&mut self.tenant_used);
            self.window_start = Instant::now();
        }
        assert(self.is_after(old(self), elapsed_secs, self.window_started()));
    }
}

/// A call of a budget.
pub enum BudgetCall {
    /// `record_usage` for a tenant.
    Record { tenant_id: Seq<char>, tokens: u64 },
    /// `has_capacity` after some seconds of the window, where the clock reads `now`.
    Ask { elapsed_secs: u64, now: Instant },
}

/// Whether a call leads from one budget to another.
pub open spec fn is_call(
    before: ClaudeBudgetGate,
    call: BudgetCall,
    after: ClaudeBudgetGate,
) -> bool {
    match call {
        BudgetCall::Record { tenant_id, tokens } => after.is_recorded(&before, tenant_id, tokens),
        BudgetCall::Ask { elapsed_secs, now } => after.is_after(&before, elapsed_secs, now),
    }
}

/// Whether the calls, one after the other, lead from a new budget through the given ones.
pub open spec fn is_history(gates: Seq<ClaudeBudgetGate>, calls: Seq<BudgetCall>) -> bool {
    &&& gates.len() == calls.len() + 1
    &&& gates[0].global_used() == 0
    &&& gates[0].tenant_used() == Map::<Seq<char>, u64>::empty()
    &&& forall|i: int|
        0 <= i < calls.len() ==> is_call(gates[i], #[trigger] calls[i], gates[i + 1])
}

/// Whether no call comes after the end of the window.
pub open spec fn stays_in_window(calls: Seq<BudgetCall>, window_secs: u64) -> bool {
    forall|i: int|
        0 <= i < calls.len() ==> (#[trigger] calls[i] matches BudgetCall::Ask { elapsed_secs, .. }
            ==> elapsed_secs < window_secs)
}

/// The tokens that the first `n` calls record.
pub open spec fn tokens_recorded(calls: Seq<BudgetCall>, n: nat) -> nat
    decreases n,
{
    if n == 0 {
        0
    } else {
        tokens_recorded(calls, (n - 1) as nat) + match calls[n - 1] {
            BudgetCall::Record { tokens, .. } => tokens as nat,
            _ => 0,
        }
    }
}

/// The tokens that the first `n` calls record for a tenant.
pub open spec fn tokens_of(calls: Seq<BudgetCall>, tenant_id: Seq<char>, n: nat) -> nat
    decreases n,
{
    if n == 0 {
        0
    } else {
        tokens_of(calls, tenant_id, (n - 1) as nat) + match calls[n - 1] {
            BudgetCall::Record { tenant_id: t, tokens } if t == tenant_id => tokens as nat,
            _ => 0,
        }
    }
}

/// Whether one of the first `n` calls records something for a tenant.
pub open spec fn is_known(calls: Seq<BudgetCall>, tenant_id: Seq<char>, n: nat) -> bool
    decreases n,
{
    n > 0 && (is_known(calls, tenant_id, (n - 1) as nat) || (calls[n - 1] matches BudgetCall::Record {
        tenant_id: t,
        ..
    } && t == tenant_id))
}

/// What the counts are after the first `n` calls of a window.
proof fn lemma_counts_in_window(
    gates: Seq<ClaudeBudgetGate>,
    calls: Seq<BudgetCall>,
    tenant_id: Seq<char>,
    n: nat,
)
    requires
        is_history(gates, calls),
        stays_in_window(calls, gates[0].window_secs()),
        n <= calls.len(),
        tokens_recorded(calls, n) <= u64::MAX,
    ensures
        gates[n as int].same_limits(&gates[0]),
        gates[n as int].global_used() == tokens_recorded(calls, n),
        tokens_of(calls, tenant_id, n) <= tokens_recorded(calls, n),
        gates[n as int].tenant_used().contains_key(tenant_id) == is_known(calls, tenant_id, n),
        used_by(gates[n as int].tenant_used(), tenant_id) == tokens_of(calls, tenant_id, n),
    decreases n,
{
    if n > 0 {
        let before = (n - 1) as nat;
        lemma_counts_in_window(gates, calls, tenant_id, before);
        assert(is_call(gates[before as int], calls[before as int], gates[before as int + 1]));
    }
}

/// Within a window, whether there is budget depends only on what was recorded: fewer tokens than
/// the global limit in all and, for a tenant that was ever recorded, fewer than its own limit. The
/// sum of all tokens must be one that can be counted.
pub proof fn law_capacity_follows_from_usage(
    gates: Seq<ClaudeBudgetGate>,
    calls: Seq<BudgetCall>,
    tenant_id: Seq<char>,
)
    requires
        is_history(gates, calls),
        stays_in_window(calls, gates[0].window_secs()),
        tokens_recorded(calls, calls.len()) <= u64::MAX,
    ensures
        gates.last().has_room(tenant_id) == (tokens_recorded(calls, calls.len())
            < gates[0].global_limit() && (is_known(calls, tenant_id, calls.len()) ==> tokens_of(
            calls,
            tenant_id,
            calls.len(),
        ) < gates[0].per_tenant_limit())),
{
    lemma_counts_in_window(gates, calls, tenant_id, calls.len());
}

/// Sums over more calls are not smaller.
proof fn lemma_sums_grow(calls: Seq<BudgetCall>, tenant_id: Seq<char>, m: nat, n: nat)
    requires
        m <= n <= calls.len(),
    ensures
        tokens_recorded(calls, m) <= tokens_recorded(calls, n),
        tokens_of(calls, tenant_id, m) <= tokens_of(calls, tenant_id, n),
        is_known(calls, tenant_id, m) ==> is_known(calls, tenant_id, n),
    decreases n,
{
    if m < n {
        lemma_sums_grow(calls, tenant_id, m, (n - 1) as nat);
    }
}

/// Within a window a tenant that has lost its budget does not get it back.
pub proof fn law_capacity_is_not_regained(
    gates: Seq<ClaudeBudgetGate>,
    calls: Seq<BudgetCall>,
    tenant_id: Seq<char>,
    m: nat,
    n: nat,
)
    requires
        is_history(gates, calls),
        stays_in_window(calls, gates[0].window_secs()),
        tokens_recorded(calls, calls.len()) <= u64::MAX,
        m <= n <= calls.len(),
        !gates[m as int].has_room(tenant_id),
    ensures
        !gates[n as int].has_room(tenant_id),
{
    lemma_sums_grow(calls, tenant_id, n, calls.len());
    lemma_sums_grow(calls, tenant_id, m, n);
    lemma_counts_in_window(gates, calls, tenant_id, m);
    lemma_counts_in_window(gates, calls, tenant_id, n);
}

/// The sum of the counts of all tenants.
pub open spec fn sum_of_counts(used: Map<Seq<char>, u64>) -> nat
    recommends
        used.dom().finite(),
    decreases used.dom().len(),
{
    if used.dom().finite() && used.dom().len() > 0 {
        let tenant_id = used.dom().choose();
        used[tenant_id] as nat + sum_of_counts(used.remove(tenant_id))
    } else {
        0
    }
}

/// The sum can be taken from any tenant on.
proof fn lemma_sum_remove(used: Map<Seq<char>, u64>, tenant_id: Seq<char>)
    requires
        used.dom().finite(),
        used.contains_key(tenant_id),
    ensures
        sum_of_counts(used) == used[tenant_id] + sum_of_counts(used.remove(tenant_id)),
    decreases used.dom().len(),
{
    let first = used.dom().choose();
    assert(used.dom().contains(first));
    if first != tenant_id {
        let rest = used.remove(first);
        lemma_sum_remove(rest, tenant_id);
        lemma_sum_remove(used.remove(tenant_id), first);
        assert(rest.remove(tenant_id) =~= used.remove(tenant_id).remove(first));
    }
}

/// Where nothing is used, the sum is zero.
proof fn lemma_sum_of_nothing(used: Map<Seq<char>, u64>)
    requires
        used.dom().finite(),
        forall|t: Seq<char>| used.contains_key(t) ==> used[t] == 0,
    ensures
        sum_of_counts(used) == 0,
    decreases used.dom().len(),
{
    if used.dom().len() > 0 {
        let first = used.dom().choose();
        assert(used.dom().contains(first));
        lemma_sum_of_nothing(used.remove(first));
    }
}

/// In every state that a budget can reach, whatever windows have passed, the global count is the
/// sum of the counts of the tenants, as far as counts go before they start again at zero.
pub proof fn law_global_count_is_the_sum(
    gates: Seq<ClaudeBudgetGate>,
    calls: Seq<BudgetCall>,
    n: nat,
)
    requires
        is_history(gates, calls),
        n <= calls.len(),
    ensures
        gates[n as int].tenant_used().dom().finite(),
        gates[n as int].global_used() == sum_of_counts(gates[n as int].tenant_used())
            % 0x1_0000_0000_0000_0000,
    decreases n,
{
    if n == 0 {
        lemma_sum_of_nothing(gates[0].tenant_used());
    } else {
        let before = gates[n - 1];
        let after = gates[n as int];
        law_global_count_is_the_sum(gates, calls, (n - 1) as nat);
        assert(is_call(gates[n - 1], calls[n - 1], gates[n - 1 + 1]));
        match calls[n - 1] {
            BudgetCall::Record { tenant_id, tokens } => {
                let old_used = before.tenant_used();
                let new_used = after.tenant_used();
                let count = used_by(old_used, tenant_id);
                lemma_sum_remove(new_used, tenant_id);
                assert(new_used.remove(tenant_id) =~= old_used.remove(tenant_id));
                if old_used.contains_key(tenant_id) {
                    lemma_sum_remove(old_used, tenant_id);
                } else {
                    assert(old_used.remove(tenant_id) =~= old_used);
                }
                let rest = sum_of_counts(old_used.remove(tenant_id));
                assert(sum_of_counts(old_used) == count + rest);
                assert(sum_of_counts(new_used) == count_sum(count, tokens) + rest);
            },
            BudgetCall::Ask { elapsed_secs, .. } => {
                if elapsed_secs >= before.window_secs() {
                    assert(after.tenant_used().dom() =~= before.tenant_used().dom());
                    lemma_sum_of_nothing(after.tenant_used());
                }
            },
        }
    }
}

/// Tenants do not use up each other's budget: what one uses leaves the limit of another as it
/// was.
pub proof fn law_tenants_do_not_share_counts(
    used: Map<Seq<char>, u64>,
    tenant_id: Seq<char>,
    count: u64,
    other: Seq<char>,
    per_tenant_limit: u64,
)
    requires
        tenant_id != other,
    ensures
        tenant_has_room(used.insert(tenant_id, count), other, per_tenant_limit)
            == tenant_has_room(used, other, per_tenant_limit),
        used_by(used.insert(tenant_id, count), other) == used_by(used, other),
{
}

/// A new window gives everyone budget again, unless a limit is zero.
pub proof fn law_new_window_restores_budget(
    before: ClaudeBudgetGate,
    after: ClaudeBudgetGate,
    elapsed_secs: u64,
    now: Instant,
    tenant_id: Seq<char>,
)
    requires
        after.is_after(&before, elapsed_secs, now),
        elapsed_secs >= before.window_secs(),
        before.global_limit() > 0,
        before.per_tenant_limit() > 0,
    ensures
        after.has_room(tenant_id),
{
}

/// An exhausted budget stays exhausted within its window: what is used beyond it does not give
/// any back, as long as the count does not overflow.
pub proof fn law_exhausted_tenant_stays_exhausted(
    used: Map<Seq<char>, u64>,
    tenant_id: Seq<char>,
    tokens: u64,
    per_tenant_limit: u64,
)
    requires
        !tenant_has_room(used, tenant_id, per_tenant_limit),
        used_by(used, tenant_id) + tokens <= u64::MAX,
    ensures
        !tenant_has_room(
            used.insert(tenant_id, count_sum(used_by(used, tenant_id), tokens)),
            tenant_id,
            per_tenant_limit,
        ),
{
}

/// A global budget that is used up leaves no tenant any room.
pub proof fn law_global_limit_binds_everyone(gate: ClaudeBudgetGate, tenant_id: Seq<char>)
    requires
        gate.global_used() >= gate.global_limit(),
    ensures
        !gate.has_room(tenant_id),
{
}

/// A window that is over is reset by the next call: nothing is used any more, by anyone, and the
/// new window starts at a reading of the clock in that call. Until then nothing is forgotten.
pub proof fn law_reset_starts_a_window(
    gate: &mut ClaudeBudgetGate,
    tenant_id: &str,
    elapsed_secs: u64,
    available: bool,
    other: Seq<char>,
)
    requires
        call_ensures(
            ClaudeBudgetGate::has_capacity_after,
            (gate, tenant_id, elapsed_secs),
            available,
        ),
    ensures
        old(gate).window_secs() <= elapsed_secs ==> {
            &&& call_ensures(Instant::now, (), final(gate).window_started())
            &&& final(gate).global_used() == 0
            &&& used_by(final(gate).tenant_used(), other) == 0
        },
        elapsed_secs < old(gate).window_secs() ==> {
            &&& final(gate).window_started() == old(gate).window_started()
            &&& final(gate).global_used() == old(gate).global_used()
            &&& used_by(final(gate).tenant_used(), other) == used_by(
                old(gate).tenant_used(),
                other,
            )
        },
        final(gate).global_limit() == old(gate).global_limit(),
        final(gate).per_tenant_limit() == old(gate).per_tenant_limit(),
        final(gate).window_secs() == old(gate).window_secs(),
{
}

/// Where the window is read off the clock, it is reset in the same way: either the counts stay,
/// or they are empty and the window starts at a reading of the clock.
pub proof fn law_reset_follows_the_clock(
    gate: &mut ClaudeBudgetGate,
    tenant_id: &str,
    available: bool,
    other: Seq<char>,
)
    requires
        call_ensures(ClaudeBudgetGate::has_capacity, (gate, tenant_id), available),
    ensures
        exists|elapsed_secs: u64| #[trigger]
            old(gate).has_run_for(elapsed_secs) && if elapsed_secs >= old(gate).window_secs() {
                &&& call_ensures(Instant::now, (), final(gate).window_started())
                &&& final(gate).global_used() == 0
                &&& used_by(final(gate).tenant_used(), other) == 0
            } else {
                &&& final(gate).window_started() == old(gate).window_started()
                &&& final(gate).global_used() == old(gate).global_used()
                &&& used_by(final(gate).tenant_used(), other) == used_by(
                    old(gate).tenant_used(),
                    other,
                )
            },
{
}

/// Whether the count under a key, if there is one, is below a limit.
pub open spec fn is_below(counts: Map<Seq<char>, u64>, key: Seq<char>, limit: u64) -> bool {
    counts.contains_key(key) ==> counts[key] < limit
}

/// There is budget for a tenant exactly where all tenants together have used less than the global
/// limit and the tenant, if it has used anything since it is known, less than its own.
pub proof fn law_capacity_is_below_both_limits(
    gate: &mut ClaudeBudgetGate,
    tenant_id: &str,
    elapsed_secs: u64,
    available: bool,
)
    requires
        call_ensures(
            ClaudeBudgetGate::has_capacity_after,
            (gate, tenant_id, elapsed_secs),
            available,
        ),
    ensures
        available <==> final(gate).global_used() < final(gate).global_limit()
            && is_below(final(gate).tenant_used(), tenant_id@, final(gate).per_tenant_limit()),
        final(gate).tenant_used().dom() == old(gate).tenant_used().dom(),
{
    assert(final(gate).tenant_used().dom() =~= old(gate).tenant_used().dom());
}

/// Usage is counted for all tenants and for the one that it is recorded for, whole and at once. No
/// other tenant, limit or window is touched.
pub proof fn law_usage_is_counted(
    gate: &mut ClaudeBudgetGate,
    tenant_id: &str,
    tokens: u64,
    other: Seq<char>,
)
    requires
        call_ensures(ClaudeBudgetGate::record_usage, (gate, tenant_id, tokens), ()),
    ensures
        old(gate).global_used() + tokens <= u64::MAX ==> final(gate).global_used()
            == old(gate).global_used() + tokens,
        used_by(old(gate).tenant_used(), tenant_id@) + tokens <= u64::MAX ==> used_by(
            final(gate).tenant_used(),
            tenant_id@,
        ) == used_by(old(gate).tenant_used(), tenant_id@) + tokens,
        final(gate).tenant_used().contains_key(tenant_id@),
        other != tenant_id@ ==> used_by(final(gate).tenant_used(), other) == used_by(
            old(gate).tenant_used(),
            other,
        ),
        other != tenant_id@ ==> (final(gate).tenant_used().contains_key(other)
            <==> old(gate).tenant_used().contains_key(other)),
        final(gate).window_started() == old(gate).window_started(),
        final(gate).global_limit() == old(gate).global_limit(),
        final(gate).per_tenant_limit() == old(gate).per_tenant_limit(),
        final(gate).window_secs() == old(gate).window_secs(),
{
}

/// A new budget has the limits that it was made with, an hour to its window, and nothing used.
pub proof fn law_new_budget_is_unused(
    global_limit: u64,
    per_tenant_limit: u64,
    gate: ClaudeBudgetGate,
    tenant_id: Seq<char>,
)
    requires
        call_ensures(ClaudeBudgetGate::new, (global_limit, per_tenant_limit), gate),
    ensures
        gate.global_limit() == global_limit,
        gate.per_tenant_limit() == per_tenant_limit,
        gate.window_secs() == 3600,
        gate.global_used() == 0,
        !gate.tenant_used().contains_key(tenant_id),
        call_ensures(Instant::now, (), gate.window_started()),
{
}

/// Whether call `i` of a history finds the window over.
pub open spec fn is_reset(gates: Seq<ClaudeBudgetGate>, calls: Seq<BudgetCall>, i: int) -> bool {
    &&& 0 <= i < calls.len()
    &&& calls[i] matches BudgetCall::Ask { elapsed_secs, .. }
    &&& elapsed_secs >= gates[i].window_secs()
}

/// Whether call `i` of a history comes `times[i]` seconds into the run of a clock: what it reads
/// off the clock is that time, and the window has then run since the time at which it started.
pub open spec fn is_timed(
    gates: Seq<ClaudeBudgetGate>,
    calls: Seq<BudgetCall>,
    times: Seq<nat>,
    clock: spec_fn(Instant) -> nat,
) -> bool {
    &&& is_history(gates, calls)
    &&& times.len() == calls.len()
    &&& forall|i: int, j: int|
        0 <= i <= j < times.len() ==> #[trigger] times[i] <= #[trigger] times[j]
    &&& forall|i: int|
        0 <= i < calls.len() ==> (#[trigger] calls[i] matches BudgetCall::Ask { elapsed_secs, now }
            ==> clock(now) == times[i] && elapsed_secs == times[i] - clock(
            gates[i].window_started(),
        ))
}

/// After a reset the window has started no earlier than that.
proof fn lemma_window_starts_at_resets(
    gates: Seq<ClaudeBudgetGate>,
    calls: Seq<BudgetCall>,
    times: Seq<nat>,
    clock: spec_fn(Instant) -> nat,
    reset: int,
    n: int,
)
    requires
        is_timed(gates, calls, times, clock),
        is_reset(gates, calls, reset),
        reset < n <= calls.len(),
    ensures
        clock(gates[n].window_started()) >= times[reset],
        gates[n].same_limits(&gates[reset]),
        (forall|k: int| reset < k < n ==> !is_reset(gates, calls, k)) ==> clock(
            gates[n].window_started(),
        ) == times[reset],
    decreases n,
{
    assert(is_call(gates[n - 1], calls[n - 1], gates[n - 1 + 1]));
    if n > reset + 1 {
        lemma_window_starts_at_resets(gates, calls, times, clock, reset, n - 1);
        assert(times[reset] <= times[n - 1]);
        if forall|k: int| reset < k < n ==> !is_reset(gates, calls, k) {
            assert(!is_reset(gates, calls, n - 1));
        }
    }
}

/// Windows last: between two resets lies at least the length of a window, whatever is called in
/// between.
pub proof fn law_windows_last(
    gates: Seq<ClaudeBudgetGate>,
    calls: Seq<BudgetCall>,
    times: Seq<nat>,
    clock: spec_fn(Instant) -> nat,
    first: int,
    second: int,
)
    requires
        is_timed(gates, calls, times, clock),
        is_reset(gates, calls, first),
        is_reset(gates, calls, second),
        first < second,
    ensures
        times[second] - times[first] >= gates[0].window_secs(),
{
    lemma_window_starts_at_resets(gates, calls, times, clock, first, second);
    lemma_limits_stay(gates, calls, second);
}

/// The limits and the length of the window never change.
proof fn lemma_limits_stay(gates: Seq<ClaudeBudgetGate>, calls: Seq<BudgetCall>, n: int)
    requires
        is_history(gates, calls),
        0 <= n <= calls.len(),
    ensures
        gates[n].same_limits(&gates[0]),
    decreases n,
{
    if n > 0 {
        lemma_limits_stay(gates, calls, n - 1);
        assert(is_call(gates[n - 1], calls[n - 1], gates[n - 1 + 1]));
    }
}

/// Usage counts for as long as its window: after a reset, and until a window's length has passed
/// since, the counts are what was recorded in between, for all tenants and for each, and a tenant
/// that has used up its limit in that time has no budget.
pub proof fn law_usage_counts_for_a_window(
    gates: Seq<ClaudeBudgetGate>,
    calls: Seq<BudgetCall>,
    times: Seq<nat>,
    clock: spec_fn(Instant) -> nat,
    reset: int,
    n: int,
    tenant_id: Seq<char>,
)
    requires
        is_timed(gates, calls, times, clock),
        is_reset(gates, calls, reset),
        reset < n <= calls.len(),
        forall|k: int|
            reset < k < n ==> #[trigger] times[k] < times[reset] + gates[0].window_secs(),
        tokens_recorded(calls.subrange(reset + 1, n), (n - reset - 1) as nat) <= u64::MAX,
    ensures
        gates[n].global_used() == tokens_recorded(
            calls.subrange(reset + 1, n),
            (n - reset - 1) as nat,
        ),
        used_by(gates[n].tenant_used(), tenant_id) == tokens_of(
            calls.subrange(reset + 1, n),
            tenant_id,
            (n - reset - 1) as nat,
        ),
        0 < gates[0].per_tenant_limit() <= tokens_of(
            calls.subrange(reset + 1, n),
            tenant_id,
            (n - reset - 1) as nat,
        ) ==> !gates[n].has_room(tenant_id),
        gates[0].global_limit() <= tokens_recorded(
            calls.subrange(reset + 1, n),
            (n - reset - 1) as nat,
        ) ==> !gates[n].has_room(tenant_id),
    decreases n,
{
    lemma_limits_stay(gates, calls, n);
    lemma_limits_stay(gates, calls, n - 1);
    lemma_usage_in_window(gates, calls, times, clock, reset, n, tenant_id);
}

proof fn lemma_usage_in_window(
    gates: Seq<ClaudeBudgetGate>,
    calls: Seq<BudgetCall>,
    times: Seq<nat>,
    clock: spec_fn(Instant) -> nat,
    reset: int,
    n: int,
    tenant_id: Seq<char>,
)
    requires
        is_timed(gates, calls, times, clock),
        is_reset(gates, calls, reset),
        reset < n <= calls.len(),
        forall|k: int|
            reset < k < n ==> #[trigger] times[k] < times[reset] + gates[0].window_secs(),
        tokens_recorded(calls.subrange(reset + 1, n), (n - reset - 1) as nat) <= u64::MAX,
    ensures
        gates[n].global_used() == tokens_recorded(
            calls.subrange(reset + 1, n),
            (n - reset - 1) as nat,
        ),
        used_by(gates[n].tenant_used(), tenant_id) == tokens_of(
            calls.subrange(reset + 1, n),
            tenant_id,
            (n - reset - 1) as nat,
        ),
        tokens_of(calls.subrange(reset + 1, n), tenant_id, (n - reset - 1) as nat)
            <= tokens_recorded(calls.subrange(reset + 1, n), (n - reset - 1) as nat),
        forall|k: int| reset < k < n ==> !is_reset(gates, calls, k),
    decreases n,
{
    let window = calls.subrange(reset + 1, n);
    let m = (n - reset - 1) as nat;
    assert(is_call(gates[n - 1], calls[n - 1], gates[n - 1 + 1]));
    if n > reset + 1 {
        let shorter = calls.subrange(reset + 1, n - 1);
        lemma_same_start(window, shorter, tenant_id, (m - 1) as nat);
        assert(window[m - 1] == calls[n - 1]);
        lemma_usage_in_window(gates, calls, times, clock, reset, n - 1, tenant_id);
        lemma_window_starts_at_resets(gates, calls, times, clock, reset, n - 1);
        lemma_limits_stay(gates, calls, n - 1);
        assert(times[n - 1] < times[reset] + gates[0].window_secs());
        assert(!is_reset(gates, calls, n - 1));
    }
}

/// Sums over the same calls are the same.
proof fn lemma_same_start(
    calls1: Seq<BudgetCall>,
    calls2: Seq<BudgetCall>,
    tenant_id: Seq<char>,
    n: nat,
)
    requires
        n <= calls1.len(),
        n <= calls2.len(),
        forall|i: int| 0 <= i < n ==> #[trigger] calls1[i] == calls2[i],
    ensures
        tokens_recorded(calls1, n) == tokens_recorded(calls2, n),
        tokens_of(calls1, tenant_id, n) == tokens_of(calls2, tenant_id, n),
    decreases n,
{
    if n > 0 {
        lemma_same_start(calls1, calls2, tenant_id, (n - 1) as nat);
        assert(calls1[n - 1] == calls2[n - 1]);
    }
}

/// Where the window is read off the clock, there is budget in the same case: below both limits.
pub proof fn law_capacity_now_is_below_both_limits(
    gate: &mut ClaudeBudgetGate,
    tenant_id: &str,
    available: bool,
)
    requires
        call_ensures(ClaudeBudgetGate::has_capacity, (gate, tenant_id), available),
    ensures
        available <==> final(gate).global_used() < final(gate).global_limit()
            && is_below(final(gate).tenant_used(), tenant_id@, final(gate).per_tenant_limit()),
        final(gate).tenant_used().dom() == old(gate).tenant_used().dom(),
        final(gate).global_limit() == old(gate).global_limit(),
        final(gate).per_tenant_limit() == old(gate).per_tenant_limit(),
        final(gate).window_secs() == old(gate).window_secs(),
{
    assert(final(gate).tenant_used().dom() =~= old(gate).tenant_used().dom());
}

} // verus!
