//! Scaling device timing constants into controller clock cycles.
//!
//! Two rounding policies, deliberately opposite:
//!
//! - a minimum delay from a device datasheet (nanoseconds) is scaled into
//!   clock cycles rounded **up**: counting one cycle too few would violate
//!   the device's minimum timing and corrupt data, while one cycle too many
//!   only costs throughput ([`ns_to_cycles`], [`lemma_cycles_never_under`]);
//! - the auto-refresh interval is scaled into clock cycles rounded **down**:
//!   a refresh must never come late, while an early refresh only costs
//!   throughput ([`refresh_interval_cycles`], [`lemma_refresh_never_late`]).

use vstd::prelude::*;

use vstd::arithmetic::div_mod::{
    lemma_div_is_ordered, lemma_div_multiples_vanish_fancy, lemma_fundamental_div_mod,
};
use vstd::arithmetic::mul::{lemma_mul_inequality, lemma_mul_is_commutative};

verus! {

/// Nanoseconds per second.
pub const NANOS_PER_SECOND: u32 = 1_000_000_000;

/// Nanoseconds per microsecond.
pub const NANOS_PER_MICRO: u32 = 1_000;

/// Milliseconds per second.
pub const MILLIS_PER_SECOND: u32 = 1_000;

/// A duration of `ns` nanoseconds in whole cycles of a `clk_hz` clock,
/// rounded up.
pub open spec fn spec_ns_to_cycles(ns: u32, clk_hz: u32) -> int {
    (ns * clk_hz + (NANOS_PER_SECOND - 1)) / (NANOS_PER_SECOND as int)
}

/// A duration of `ns` nanoseconds in whole microseconds, rounded up.
pub open spec fn spec_ns_to_micros(ns: u32) -> int {
    (ns + (NANOS_PER_MICRO - 1)) / (NANOS_PER_MICRO as int)
}

/// The refresh interval in clock cycles, rounded down: the declared refresh
/// period (milliseconds) divided by the row count gives the time available
/// per row refresh, and late refreshes are never acceptable.
pub open spec fn spec_refresh_interval(period_ms: u32, rows: u32, clk_hz: u32) -> int {
    (period_ms * clk_hz) / (MILLIS_PER_SECOND * rows as int)
}

/// Scales `ns` nanoseconds into whole cycles of a `clk_hz` clock, rounding
/// up so the device's minimum timing is never under-counted.
pub fn ns_to_cycles(ns: u32, clk_hz: u32) -> (c: u32)
    requires
        ns <= NANOS_PER_SECOND,
    ensures
        c == spec_ns_to_cycles(ns, clk_hz),
{
    proof {
        lemma_cycles_at_most_clock(ns, clk_hz);
    }
    let prod: u64 = (ns as u64) * (clk_hz as u64);
    ((prod + 999_999_999) / 1_000_000_000) as u32
}

/// Scales `ns` nanoseconds into whole microseconds, rounding up, for the
/// delay provider's unit.
pub fn ns_to_micros(ns: u32) -> (us: u32)
    requires
        ns <= NANOS_PER_SECOND,
    ensures
        us == spec_ns_to_micros(ns),
{
    (ns + 999) / 1_000
}

/// Computes the refresh-interval register value in clock cycles, rounded
/// down so a refresh never comes late.
pub fn refresh_interval_cycles(period_ms: u32, rows: u32, clk_hz: u32) -> (c: u32)
    requires
        1 <= rows,
        period_ms <= MILLIS_PER_SECOND,
    ensures
        c == spec_refresh_interval(period_ms, rows, clk_hz),
{
    proof {
        lemma_refresh_at_most_clock(period_ms, rows, clk_hz);
        assert((period_ms as int) * (clk_hz as int) <= 1000 * (clk_hz as int)) by {
            lemma_mul_inequality(period_ms as int, 1000, clk_hz as int);
        }
    }
    let prod: u64 = (period_ms as u64) * (clk_hz as u64);
    (prod / (1_000u64 * (rows as u64))) as u32
}

/// Rounding a nanosecond duration up into cycles fits the clock rate: at
/// most `clk_hz` cycles come out of at most one second of delay.
proof fn lemma_cycles_at_most_clock(ns: u32, clk_hz: u32)
    requires
        ns <= NANOS_PER_SECOND,
    ensures
        0 <= spec_ns_to_cycles(ns, clk_hz) <= clk_hz,
{
    let k = NANOS_PER_SECOND as int;
    let x = ns * clk_hz;
    assert(x <= k * clk_hz) by {
        lemma_mul_inequality(ns as int, k, clk_hz as int);
    }
    lemma_div_is_ordered(0, x + k - 1, k);
    lemma_div_is_ordered(x + k - 1, k * clk_hz + k - 1, k);
    lemma_div_multiples_vanish_fancy(clk_hz as int, k - 1, k);
}

/// Rounding the refresh interval down fits the clock rate: at most
/// `clk_hz` cycles come out of at most one second of period.
proof fn lemma_refresh_at_most_clock(period_ms: u32, rows: u32, clk_hz: u32)
    requires
        1 <= rows,
        period_ms <= MILLIS_PER_SECOND,
    ensures
        0 <= spec_refresh_interval(period_ms, rows, clk_hz) <= clk_hz,
{
    let d = MILLIS_PER_SECOND * rows as int;
    let x = period_ms * clk_hz;
    assert(x <= 1000 * clk_hz) by {
        lemma_mul_inequality(period_ms as int, 1000, clk_hz as int);
    }
    assert(1000 * clk_hz <= d * clk_hz) by {
        lemma_mul_inequality(1000, d, clk_hz as int);
    }
    lemma_div_is_ordered(0, x, d);
    lemma_div_is_ordered(x, d * clk_hz, d);
    lemma_div_multiples_vanish_fancy(clk_hz as int, 0, d);
}

/// The conservative rounding law: the programmed cycle count never
/// under-counts the device's minimum delay (`c` cycles of the clock last at
/// least `ns` nanoseconds), and it overshoots by less than one cycle.
pub proof fn lemma_cycles_never_under(ns: u32, clk_hz: u32)
    ensures
        spec_ns_to_cycles(ns, clk_hz) * NANOS_PER_SECOND >= ns * clk_hz,
        spec_ns_to_cycles(ns, clk_hz) * NANOS_PER_SECOND < ns * clk_hz + NANOS_PER_SECOND,
{
    let k = NANOS_PER_SECOND as int;
    let x = ns * clk_hz;
    let c = spec_ns_to_cycles(ns, clk_hz);
    assert(x >= 0) by {
        lemma_mul_inequality(0, ns as int, clk_hz as int);
    }
    lemma_fundamental_div_mod(x + k - 1, k);
}

/// The refresh rounding law: the programmed interval never stretches the
/// declared per-row refresh budget (`c` cycles of the clock last no longer
/// than the period divided by the row count), so no refresh comes late.
pub proof fn lemma_refresh_never_late(period_ms: u32, rows: u32, clk_hz: u32)
    requires
        1 <= rows,
    ensures
        spec_refresh_interval(period_ms, rows, clk_hz) * (MILLIS_PER_SECOND * rows as int)
            <= period_ms * clk_hz,
{
    let d = MILLIS_PER_SECOND * rows as int;
    let x = period_ms * clk_hz;
    let c = spec_refresh_interval(period_ms, rows, clk_hz);
    assert(x >= 0) by {
        lemma_mul_inequality(0, period_ms as int, clk_hz as int);
    }
    lemma_fundamental_div_mod(x, d);
    assert(d * c <= x);
    assert(c * d == d * c) by {
        lemma_mul_is_commutative(c, d);
    }
}

} // verus!
