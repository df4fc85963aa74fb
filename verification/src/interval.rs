use std::time::Duration;
use vstd::prelude::*;

use crate::duration::{duration_millis, from_millis_result, millis};

verus! {

/// Shortest power-tick interval, in milliseconds.
pub const MIN_INTERVAL_MS: u64 = 500;

/// Longest power-tick interval, in milliseconds. Stale preference files
/// (an `updateInterval` of a whole day, say) would otherwise stall the chart.
pub const MAX_INTERVAL_MS: u64 = 60_000;

/// `ms` brought into `[MIN_INTERVAL_MS, MAX_INTERVAL_MS]`.
pub open spec fn clamped_interval_ms(ms: int) -> int {
    if ms < MIN_INTERVAL_MS {
        MIN_INTERVAL_MS as int
    } else if ms > MAX_INTERVAL_MS {
        MAX_INTERVAL_MS as int
    } else {
        ms
    }
}

/// The period that a request of `ms` milliseconds gives: the duration of
/// `ms` clamped to the bounds, made by `Duration::from_millis`.
pub open spec fn sanitized_period(ms: int) -> Duration {
    from_millis_result(clamped_interval_ms(ms) as u64)
}

/// The power-tick period for a requested interval of `ms` milliseconds:
/// the request itself when it lies within the bounds, else the nearer bound,
/// as a whole number of milliseconds.
pub fn sanitize_interval_ms(ms: u64) -> (period: Duration)
    ensures
        period == sanitized_period(ms as int),
        duration_millis(period) == clamped_interval_ms(ms as int),
        MIN_INTERVAL_MS <= duration_millis(period) <= MAX_INTERVAL_MS,
        ms < MIN_INTERVAL_MS ==> duration_millis(period) == MIN_INTERVAL_MS,
        ms > MAX_INTERVAL_MS ==> duration_millis(period) == MAX_INTERVAL_MS,
        MIN_INTERVAL_MS <= ms <= MAX_INTERVAL_MS ==> duration_millis(period) == ms && period
            == from_millis_result(ms),
{
    if ms < MIN_INTERVAL_MS {
        millis(MIN_INTERVAL_MS)
    } else if ms > MAX_INTERVAL_MS {
        millis(MAX_INTERVAL_MS)
    } else {
        millis(ms)
    }
}

/// Clamping is idempotent, and keeps an in-range request.
pub proof fn lemma_clamp_idempotent(ms: int)
    ensures
        clamped_interval_ms(clamped_interval_ms(ms)) == clamped_interval_ms(ms),
        MIN_INTERVAL_MS <= clamped_interval_ms(ms) <= MAX_INTERVAL_MS,
        MIN_INTERVAL_MS <= ms <= MAX_INTERVAL_MS ==> clamped_interval_ms(ms) == ms,
        ms < MIN_INTERVAL_MS ==> clamped_interval_ms(ms) == 500,
        ms > MAX_INTERVAL_MS ==> clamped_interval_ms(ms) == 60_000,
{
}

/// Sanitizing a sanitized period gives the same period: `period` is what
/// `sanitize_interval_ms(ms)` returns (its two clauses), and sanitizing its
/// whole milliseconds again yields `period` itself.
pub proof fn lemma_sanitize_idempotent(ms: int, period: Duration)
    requires
        period == sanitized_period(ms),
        duration_millis(period) == clamped_interval_ms(ms),
    ensures
        sanitized_period(duration_millis(period) as int) == period,
        sanitized_period((duration_millis(period) as u64) as int) == period,
{
}

} // verus!
