//! The algebraic laws of the duration arithmetic, stated over the total
//! nanosecond model.
//!
//! Every operation's contract pins its result down to a canonical duration
//! with a stated total, so each law takes the operands together with values
//! standing for the operation results, bound only by those contracts, and
//! concludes the law of the results themselves.

use vstd::arithmetic::mul::lemma_mul_basics;
use vstd::arithmetic::mul::lemma_mul_is_associative;
use vstd::arithmetic::mul::lemma_mul_is_distributive_add_other_way;
use vstd::prelude::*;

use crate::constants::NANOSECONDS_IN_SECOND;
use crate::duration::abs_total;
use crate::duration::add_carry;
use crate::duration::Duration;
use crate::seconds_nanos::min_total_nanos;
use crate::seconds_nanos::nanos_total;
use crate::seconds_nanos::total_in_range;

verus! {

/// Adding the zero duration to a duration, or subtracting it, gives the
/// duration back, and both operations are permitted on every canonical
/// duration.
pub proof fn lemma_additive_identity(d: Duration, zero: Duration, r: Duration)
    requires
        d.wf(),
        zero.wf(),
        zero@ == 0,
        r.wf(),
        r@ == d@ + zero@ || r@ == d@ - zero@,
    ensures
        r == d,
        zero.spec_seconds() + add_carry(d, zero) <= i64::MAX,
        total_in_range(d@ + zero@),
        total_in_range(d@ - zero@),
{
    d.lemma_canonical_form();
    zero.lemma_canonical_form();
    Duration::lemma_view_injective(r, d);
}

/// Negating a duration twice gives the duration back; the negation's sign
/// differs unless the duration is zero; and both have one amplitude. The
/// duration of greatest negative length, whose negation is unrepresentable,
/// is excluded.
pub proof fn lemma_negation_involution(d: Duration, negated: Duration, back: Duration)
    requires
        d.wf(),
        d@ != min_total_nanos(),
        negated.wf(),
        negated@ == -d@,
        back.wf(),
        back@ == -negated@,
    ensures
        back == d,
        d@ == 0 ==> negated == d,
        d@ != 0 ==> ((negated@ < 0) != (d@ < 0)),
        abs_total(negated@) == abs_total(d@),
{
    Duration::lemma_view_injective(back, d);
    if d@ == 0 {
        Duration::lemma_view_injective(negated, d);
    }
}

/// The absolute value of a duration is never negative.
pub proof fn lemma_abs_non_negative(d: Duration, absolute: Duration)
    requires
        d.wf(),
        d@ != min_total_nanos(),
        absolute.wf(),
        absolute@ == abs_total(d@),
    ensures
        absolute@ >= 0,
{
}

/// The absolute value of a canonical duration is unrepresentable exactly on
/// the duration of greatest negative length.
pub proof fn lemma_abs_overflow_boundary(d: Duration)
    requires
        d.wf(),
    ensures
        total_in_range(abs_total(d@)) <==> d@ != min_total_nanos(),
{
    d.lemma_canonical_form();
}

/// Multiplying a duration by zero gives the zero duration.
pub proof fn lemma_multiply_zero(d: Duration, zero: Duration, r: Duration)
    requires
        d.wf(),
        zero.wf(),
        zero@ == 0,
        r.wf(),
        r@ == d@ * 0,
    ensures
        r == zero,
{
    lemma_mul_basics(d@);
    Duration::lemma_view_injective(r, zero);
}

/// Multiplying a duration by one gives the duration back.
pub proof fn lemma_multiply_identity(d: Duration, r: Duration)
    requires
        d.wf(),
        r.wf(),
        r@ == d@ * 1,
    ensures
        r == d,
{
    lemma_mul_basics(d@);
    Duration::lemma_view_injective(r, d);
}

/// Scaling a duration by two factors in turn equals scaling it by their
/// product, whenever both results are representable.
pub proof fn lemma_multiply_associative(
    d: Duration,
    a: i64,
    b: i64,
    in_turn: Duration,
    at_once: Duration,
)
    requires
        d.wf(),
        in_turn.wf(),
        in_turn@ == (d@ * a) * b,
        at_once.wf(),
        at_once@ == d@ * (a * b),
    ensures
        in_turn == at_once,
{
    lemma_mul_is_associative(d@, a as int, b as int);
    Duration::lemma_view_injective(in_turn, at_once);
}

/// Scaling a sum of durations equals summing the scaled durations, whenever
/// all the results are representable.
pub proof fn lemma_multiply_distributive(
    left: Duration,
    right: Duration,
    factor: i64,
    scaled_sum: Duration,
    sum_of_scaled: Duration,
)
    requires
        left.wf(),
        right.wf(),
        scaled_sum.wf(),
        scaled_sum@ == (left@ + right@) * factor,
        sum_of_scaled.wf(),
        sum_of_scaled@ == left@ * factor + right@ * factor,
    ensures
        scaled_sum == sum_of_scaled,
{
    lemma_mul_is_distributive_add_other_way(factor as int, left@, right@);
    Duration::lemma_view_injective(scaled_sum, sum_of_scaled);
}

/// A duration built from a second count and a nanosecond adjustment hands
/// the canonical pair of the implied raw total back through its accessors:
/// the seconds are the floor quotient of the total by 1e9 and the nanos the
/// nonnegative remainder, floor semantics included for negative totals.
pub proof fn lemma_round_trip(seconds: i64, nano_adjustment: i64, d: Duration)
    requires
        d.wf(),
        d@ == nanos_total(seconds as int, nano_adjustment as int),
    ensures
        d.spec_seconds() == nanos_total(seconds as int, nano_adjustment as int) / (
        NANOSECONDS_IN_SECOND as int),
        d.spec_nanos() == nanos_total(seconds as int, nano_adjustment as int) % (
        NANOSECONDS_IN_SECOND as int),
{
    d.lemma_canonical_form();
}

} // verus!
