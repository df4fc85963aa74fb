use std::time::Duration;
use vstd::prelude::*;

verus! {

/// The whole number of milliseconds that a `Duration` spans, as
/// `Duration::as_millis` reports it.
pub uninterp spec fn duration_millis(d: Duration) -> u128;

/// The duration that `Duration::from_millis(ms)` makes.
pub uninterp spec fn from_millis_result(ms: u64) -> Duration;

/// Calls `std::time::Duration::from_millis`. The result is named by
/// `from_millis_result`; its documentation says it is a duration of exactly
/// `ms` milliseconds, so `as_millis` of the result gives `ms` back.
#[verifier::external_body]
pub fn millis(ms: u64) -> (d: Duration)
    ensures
        d == from_millis_result(ms),
        duration_millis(d) == ms as u128,
{
    Duration::from_millis(ms)
}

/// Calls `std::time::Duration::as_millis`, the total number of whole
/// milliseconds in `d`.
#[verifier::external_body]
pub fn as_millis(d: &Duration) -> (ms: u128)
    ensures
        ms == duration_millis(*d),
{
    d.as_millis()
}

} // verus!
