//! Carry/borrow normalization of (seconds, nanoseconds) pairs.
//!
//! A time quantity is modelled throughout this crate by its total count of
//! nanoseconds, an unbounded integer. The canonical machine form is a pair of
//! a signed whole-second count and a sub-second nanosecond count lying in
//! `0..1_000_000_000`; the helpers here produce that form and detect when the
//! whole-second count leaves the `i64` range.

use vstd::prelude::*;

use crate::constants::NANOSECONDS_IN_SECOND;

verus! {

/// The total nanosecond count denoted by a (seconds, sub-second nanos) pair.
pub open spec fn nanos_total(seconds: int, nanos: int) -> int {
    seconds * (NANOSECONDS_IN_SECOND as int) + nanos
}

/// The least total nanosecond count a canonical pair with `i64` seconds can hold.
pub open spec fn min_total_nanos() -> int {
    nanos_total(i64::MIN as int, 0)
}

/// The greatest total nanosecond count a canonical pair with `i64` seconds can hold.
pub open spec fn max_total_nanos() -> int {
    nanos_total(i64::MAX as int, (NANOSECONDS_IN_SECOND - 1) as int)
}

/// Whether a total nanosecond count is representable as a canonical pair.
pub open spec fn total_in_range(total: int) -> bool {
    min_total_nanos() <= total <= max_total_nanos()
}

/// `min_total_nanos()` as a 128-bit machine value.
pub const MIN_TOTAL_NANOSECONDS: i128 = -9_223_372_036_854_775_808_000_000_000;

/// `max_total_nanos()` as a 128-bit machine value.
pub const MAX_TOTAL_NANOSECONDS: i128 = 9_223_372_036_854_775_807_999_999_999;

/// The machine bounds above are the model bounds.
pub proof fn lemma_total_bound_values()
    ensures
        MIN_TOTAL_NANOSECONDS as int == min_total_nanos(),
        MAX_TOTAL_NANOSECONDS as int == max_total_nanos(),
{
}

/// One carry/borrow step: moves a nanosecond count that is at most one whole
/// second out of range back into `0..1_000_000_000`, returning the second
/// adjustment alongside.
pub fn carry_and_nanos(nanoseconds: i64) -> (r: (i64, u32))
    requires
        -NANOSECONDS_IN_SECOND < nanoseconds < 2 * NANOSECONDS_IN_SECOND,
    ensures
        nanos_total(r.0 as int, r.1 as int) == nanoseconds,
        r.1 < NANOSECONDS_IN_SECOND,
        -1 <= r.0 <= 1,
{
    if nanoseconds < 0 {
        (-1, (nanoseconds + NANOSECONDS_IN_SECOND) as u32)
    } else if nanoseconds >= NANOSECONDS_IN_SECOND {
        (1, (nanoseconds - NANOSECONDS_IN_SECOND) as u32)
    } else {
        (0, nanoseconds as u32)
    }
}

/// Splits an arbitrary signed nanosecond count into the canonical
/// (seconds, sub-second nanos) pair, with floor-division semantics: the
/// sub-second part is always the nonnegative remainder.
pub fn seconds_and_nanos(nanoseconds: i64) -> (r: (i64, u32))
    ensures
        nanos_total(r.0 as int, r.1 as int) == nanoseconds,
        r.1 < NANOSECONDS_IN_SECOND,
{
    let base_adjustment: i64 = nanoseconds / NANOSECONDS_IN_SECOND;
    let base_nanos: i64 = nanoseconds % NANOSECONDS_IN_SECOND;

    let (extra_adjustment, final_nanos) = carry_and_nanos(base_nanos);
    (base_adjustment + extra_adjustment, final_nanos)
}

/// Folds a nanosecond adjustment into a whole-second base, returning the
/// canonical pair, or `None` exactly when the adjusted second count leaves
/// the `i64` range.
pub fn of_seconds_and_adjustment_checked(seconds: i64, nano_adjustment: i64) -> (r: Option<
    (i64, u32),
>)
    ensures
        r is Some <==> total_in_range(nanos_total(seconds as int, nano_adjustment as int)),
        r matches Some(p) ==> nanos_total(p.0 as int, p.1 as int) == nanos_total(
            seconds as int,
            nano_adjustment as int,
        ) && p.1 < NANOSECONDS_IN_SECOND,
{
    let (second_adjustment, nanos) = seconds_and_nanos(nano_adjustment);
    match seconds.checked_add(second_adjustment) {
        None => None,
        Some(total_seconds) => Some((total_seconds, nanos)),
    }
}

} // verus!
