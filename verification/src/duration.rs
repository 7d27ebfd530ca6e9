//! Nanosecond arithmetic on [`std::time::Duration`].
//!
//! Verus knows `Duration` only as an opaque type. This module names the two parts that make
//! up a duration, states what three functions of std do to them, and proves the conversion
//! between a duration and its total number of nanoseconds.
use std::time::Duration;
use vstd::prelude::*;

verus! {

/// Nanoseconds in one second.
pub const NANOS_PER_SEC: u128 = 1_000_000_000;

/// The largest total number of nanoseconds that a `Duration` holds: `u64::MAX` whole seconds
/// and 999,999,999 nanoseconds.
pub const MAX_NANOS: u128 = 18_446_744_073_709_551_615_999_999_999;

/// The whole seconds of a duration: what `Duration::as_secs` returns.
pub uninterp spec fn duration_secs(d: Duration) -> u64;

/// The fractional part of a duration in nanoseconds: what `Duration::subsec_nanos` returns.
pub uninterp spec fn duration_subsec_nanos(d: Duration) -> u32;

/// `Duration::as_secs` returns the number of whole seconds of the duration.
pub assume_specification[ Duration::as_secs ](d: &Duration) -> (secs: u64)
    ensures
        secs == duration_secs(*d),
;

/// `Duration::subsec_nanos` returns the fractional part of the duration in nanoseconds, which
/// std documents to be less than one billion.
pub assume_specification[ Duration::subsec_nanos ](d: &Duration) -> (nanos: u32)
    ensures
        nanos == duration_subsec_nanos(*d),
        nanos < 1_000_000_000,
;

/// `Duration::new` builds a duration from whole seconds and additional nanoseconds. With less
/// than one billion nanoseconds nothing carries over into the seconds, so both parts are kept
/// as given and the constructor cannot overflow.
pub assume_specification[ Duration::new ](secs: u64, nanos: u32) -> (d: Duration)
    requires
        nanos < 1_000_000_000,
    ensures
        duration_secs(d) == secs,
        duration_subsec_nanos(d) == nanos,
;

/// The total number of nanoseconds of a duration.
pub open spec fn nanos_of(d: Duration) -> nat {
    (duration_secs(d) as nat) * 1_000_000_000 + (duration_subsec_nanos(d) as nat)
}

/// Saturating difference of two natural numbers.
pub open spec fn saturating_diff(a: nat, b: nat) -> nat {
    if a >= b {
        (a - b) as nat
    } else {
        0
    }
}

/// Sum of two natural numbers, capped at [`MAX_NANOS`].
pub open spec fn saturating_sum(a: nat, b: nat) -> nat {
    if a + b <= MAX_NANOS {
        a + b
    } else {
        MAX_NANOS as nat
    }
}

/// The total number of nanoseconds of `d`.
pub fn to_nanos(d: Duration) -> (n: u128)
    ensures
        n == nanos_of(d),
        n <= MAX_NANOS,
{
    let secs: u64 = d.as_secs();
    let sub: u32 = d.subsec_nanos();
    assert((secs as nat) * 1_000_000_000 <= 18_446_744_073_709_551_615 * 1_000_000_000)
        by (nonlinear_arith)
        requires
            secs <= 18_446_744_073_709_551_615,
    ;
    (secs as u128) * NANOS_PER_SEC + (sub as u128)
}

/// The duration that lasts `n` nanoseconds.
pub fn from_nanos(n: u128) -> (d: Duration)
    requires
        n <= MAX_NANOS,
    ensures
        nanos_of(d) == n,
{
    let secs: u128 = n / NANOS_PER_SEC;
    let sub: u128 = n % NANOS_PER_SEC;
    assert(secs <= u64::MAX && n == secs * 1_000_000_000 + sub) by (nonlinear_arith)
        requires
            n <= 18_446_744_073_709_551_615_999_999_999,
            secs == n / 1_000_000_000,
            sub == n % 1_000_000_000,
    ;
    Duration::new(secs as u64, sub as u32)
}

/// Whether `d` lasts no time at all.
pub fn is_zero(d: Duration) -> (zero: bool)
    ensures
        zero == (nanos_of(d) == 0),
{
    to_nanos(d) == 0
}

} // verus!
