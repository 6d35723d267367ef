//! Arithmetic on `std::time::Duration`, stated over whole nanoseconds.

use std::time::Duration;
use vstd::prelude::*;

verus! {

/// Nanoseconds in one second.
pub const NANOS_PER_SEC: u32 = 1_000_000_000;

/// The whole seconds that a duration holds, as `Duration::as_secs` reports
/// them.
pub uninterp spec fn whole_secs(d: Duration) -> u64;

/// The part of a duration below one second, in nanoseconds, as
/// `Duration::subsec_nanos` reports it.
pub uninterp spec fn subsec_nanos(d: Duration) -> u32;

/// `Duration::as_secs`: the number of whole seconds in the duration.
pub assume_specification[ Duration::as_secs ](d: &Duration) -> (secs: u64)
    ensures
        secs == whole_secs(*d),
;

/// `Duration::subsec_nanos`: the fractional part of the duration in
/// nanoseconds, which std documents to be below one billion.
pub assume_specification[ Duration::subsec_nanos ](d: &Duration) -> (nanos: u32)
    ensures
        nanos == subsec_nanos(*d),
        nanos < NANOS_PER_SEC,
;

/// `Duration::new`: the duration of `secs` whole seconds and `nanos`
/// further nanoseconds. Only fewer nanoseconds than a second holds are
/// admitted here: more would carry into the seconds, and std panics where
/// that overflows.
pub assume_specification[ Duration::new ](secs: u64, nanos: u32) -> (d: Duration)
    requires
        nanos < NANOS_PER_SEC,
    ensures
        whole_secs(d) == secs,
        subsec_nanos(d) == nanos,
;

/// The length of a duration in nanoseconds.
pub open spec fn nanos_of(d: Duration) -> nat {
    (whole_secs(d) * NANOS_PER_SEC + subsec_nanos(d)) as nat
}

/// The longest duration in nanoseconds: the largest count of whole seconds
/// and one nanosecond less than a further second.
pub const MAX_NANOS: u128 = 18_446_744_073_709_551_615_999_999_999;

/// The length of `d` in nanoseconds.
pub fn total_nanos(d: Duration) -> (n: u128)
    ensures
        n == nanos_of(d),
        n <= MAX_NANOS,
{
    let secs: u64 = d.as_secs();
    let sub: u32 = d.subsec_nanos();
    assert(secs * NANOS_PER_SEC <= u64::MAX * NANOS_PER_SEC) by (nonlinear_arith)
        requires
            secs <= u64::MAX,
    ;
    (secs as u128) * (NANOS_PER_SEC as u128) + (sub as u128)
}

/// The duration that is `n` nanoseconds long.
pub fn duration_of_nanos(n: u128) -> (d: Duration)
    requires
        n <= MAX_NANOS,
    ensures
        nanos_of(d) == n,
{
    let secs: u128 = n / (NANOS_PER_SEC as u128);
    let sub: u128 = n % (NANOS_PER_SEC as u128);
    assert(secs <= u64::MAX) by (nonlinear_arith)
        requires
            secs == n / 1_000_000_000u128,
            n <= 18_446_744_073_709_551_615_999_999_999u128,
    ;
    Duration::new(secs as u64, sub as u32)
}

} // verus!
