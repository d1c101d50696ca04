//! Backpressure: when the runtime takes no more work.
//!
//! The fill of the egress buffer is a single precision number. It is held, and compared, by its
//! IEEE 754 bits, which order the numbers from zero to infinity as the numbers themselves are
//! ordered. Negative numbers and NaN have larger bits than infinity.

use vstd::prelude::*;

verus! {

/// Active agents, in hundredths of the limit, above which new dispatches are throttled.
pub const THROTTLE_AGENT_PERCENT: u128 = 80;

/// Bits of the buffer fill 0.85, above which new dispatches are throttled.
pub const THROTTLE_L3_FILL_BITS: u32 = 0x3F59_999A;

/// Active agents, in hundredths of the limit, above which new tasks are rejected.
pub const CRITICAL_AGENT_PERCENT: u128 = 95;

/// Bits of the buffer fill 0.95, above which new tasks are rejected.
pub const CRITICAL_L3_FILL_BITS: u32 = 0x3F73_3333;

/// Bits of positive infinity.
pub const INFINITY_BITS: u32 = 0x7F80_0000;

/// How scarce memory is.
#[derive(Debug, Clone, Copy, PartialEq, Eq, Structural)]
pub enum MemoryPressureLevel {
    NoPressure,
    Low,
    High,
    Critical,
}

/// What the supervisor reports before tasks are dispatched.
#[derive(Debug, Clone, Copy)]
pub struct BackpressureStatus {
    pub active_agent_count: usize,
    pub active_agent_limit: usize,
    /// Bits of the fill of the egress buffer.
    pub l3_egress_buffer_fill_bits: u32,
    pub pending_hydrations: usize,
    pub memory_pressure: MemoryPressureLevel,
}

/// Whether the number with bits `bits` is greater than the one with bits `threshold`, for a
/// threshold that is a number from zero to infinity.
pub open spec fn fill_exceeds(bits: u32, threshold: u32) -> bool {
    threshold < bits <= INFINITY_BITS
}

/// Whether `count` is more than `percent` hundredths of `limit`.
pub open spec fn share_exceeds(count: usize, limit: usize, percent: u128) -> bool {
    100 * count > percent * limit
}

impl BackpressureStatus {
    /// Whether either measure is above the given thresholds.
    pub open spec fn exceeds(&self, agent_percent: u128, fill_bits: u32) -> bool {
        ||| share_exceeds(self.active_agent_count, self.active_agent_limit, agent_percent)
        ||| fill_exceeds(self.l3_egress_buffer_fill_bits, fill_bits)
    }

    /// Whether new dispatches should pause: more than 80 percent of the agents are active, or the
    /// egress buffer is filled above 0.85.
    pub fn should_throttle(&self) -> (throttle: bool)
        ensures
            throttle == self.exceeds(THROTTLE_AGENT_PERCENT, THROTTLE_L3_FILL_BITS),
    {
        self.is_above(THROTTLE_AGENT_PERCENT, THROTTLE_L3_FILL_BITS)
    }

    /// Whether new tasks are rejected: more than 95 percent of the agents are active, or the
    /// egress buffer is filled above 0.95.
    pub fn is_critical(&self) -> (critical: bool)
        ensures
            critical == self.exceeds(CRITICAL_AGENT_PERCENT, CRITICAL_L3_FILL_BITS),
    {
        self.is_above(CRITICAL_AGENT_PERCENT, CRITICAL_L3_FILL_BITS)
    }

    fn is_above(&self, agent_percent: u128, fill_bits: u32) -> (above: bool)
        requires
            agent_percent <= 100,
        ensures
            above == self.exceeds(agent_percent, fill_bits),
    {
        let limit = self.active_agent_limit as u128;
        assert(0 <= agent_percent * limit <= 100 * limit) by (nonlinear_arith)
            requires
                agent_percent <= 100,
        ;
        100 * (self.active_agent_count as u128) > agent_percent * limit || (fill_bits
            < self.l3_egress_buffer_fill_bits && self.l3_egress_buffer_fill_bits <= INFINITY_BITS)
    }
}

/// Critical pressure is also a reason to throttle.
pub proof fn law_critical_implies_throttle(status: BackpressureStatus)
    requires
        status.exceeds(CRITICAL_AGENT_PERCENT, CRITICAL_L3_FILL_BITS),
    ensures
        status.exceeds(THROTTLE_AGENT_PERCENT, THROTTLE_L3_FILL_BITS),
{
}

/// More active agents or a fuller buffer never ease the pressure.
pub proof fn law_pressure_is_monotone(
    low: BackpressureStatus,
    high: BackpressureStatus,
    agent_percent: u128,
    fill_bits: u32,
)
    requires
        low.exceeds(agent_percent, fill_bits),
        low.active_agent_count <= high.active_agent_count,
        low.active_agent_limit == high.active_agent_limit,
        low.l3_egress_buffer_fill_bits <= high.l3_egress_buffer_fill_bits <= INFINITY_BITS,
    ensures
        high.exceeds(agent_percent, fill_bits),
{
}

/// Dispatches pause exactly where more than four fifths of the agents are active or the buffer is
/// filled above 0.85, and tasks are rejected where it is more than nineteen twentieths or above
/// 0.95. Neither depends on anything else.
pub proof fn law_pressure_thresholds(
    status: BackpressureStatus,
    throttle: bool,
    critical: bool,
)
    requires
        call_ensures(BackpressureStatus::should_throttle, (&status,), throttle),
        call_ensures(BackpressureStatus::is_critical, (&status,), critical),
    ensures
        throttle <==> 5 * status.active_agent_count > 4 * status.active_agent_limit || 0x3F59_999A
            < status.l3_egress_buffer_fill_bits <= 0x7F80_0000,
        critical <==> 20 * status.active_agent_count > 19 * status.active_agent_limit || 0x3F73_3333
            < status.l3_egress_buffer_fill_bits <= 0x7F80_0000,
        critical ==> throttle,
{
}

} // verus!
