//! A signed span of time held as whole seconds and a sub-second nanosecond
//! count.
//!
//! The mathematical value of a `Duration` is its total count of nanoseconds
//! (the view `d@`, an unbounded integer). The machine form is canonical: the
//! sub-second count always lies in `0..1_000_000_000`, so the sign of the
//! span is carried entirely by the whole-second count, and a span strictly
//! between two whole seconds and negative borrows one second (for example
//! -0.3 s is held as seconds `-1`, nanoseconds `700_000_000`).

use vstd::arithmetic::div_mod::lemma_fundamental_div_mod_converse_div;
use vstd::arithmetic::div_mod::lemma_fundamental_div_mod_converse_mod;
use vstd::arithmetic::mul::lemma_mul_unary_negation;
use vstd::prelude::*;

use crate::constants::MILLISECONDS_IN_SECOND;
use crate::constants::NANOSECONDS_IN_MILLISECOND;
use crate::constants::NANOSECONDS_IN_SECOND;
use crate::constants::SECONDS_IN_DAY;
use crate::constants::SECONDS_IN_HOUR;
use crate::constants::SECONDS_IN_MINUTE;
use crate::seconds_nanos::carry_and_nanos;
use crate::seconds_nanos::lemma_total_bound_values;
use crate::seconds_nanos::max_total_nanos;
use crate::seconds_nanos::min_total_nanos;
use crate::seconds_nanos::nanos_total;
use crate::seconds_nanos::of_seconds_and_adjustment_checked;
use crate::seconds_nanos::seconds_and_nanos;
use crate::seconds_nanos::total_in_range;
use crate::seconds_nanos::MAX_TOTAL_NANOSECONDS;
use crate::seconds_nanos::MIN_TOTAL_NANOSECONDS;

verus! {

/// A time-based amount of time, such as '34.5 seconds'.
#[derive(Clone, Copy, Debug, Default, Eq, Hash, Ord, PartialEq, PartialOrd, Structural)]
pub struct Duration {
    seconds: i64,
    nanoseconds_of_second: u32,
}

impl View for Duration {
    type V = int;

    /// The total nanosecond count this duration denotes.
    open spec fn view(&self) -> int {
        nanos_total(self.spec_seconds(), self.spec_nanos())
    }
}

impl Duration {
    /// The whole-second count of the machine form.
    pub closed spec fn spec_seconds(self) -> int {
        self.seconds as int
    }

    /// The sub-second nanosecond count of the machine form.
    pub closed spec fn spec_nanos(self) -> int {
        self.nanoseconds_of_second as int
    }

    /// Canonical form: the sub-second count lies in `0..1_000_000_000`.
    pub open spec fn wf(self) -> bool {
        0 <= self.spec_nanos() < NANOSECONDS_IN_SECOND
    }

    /// A canonical duration is determined by its total nanosecond count: the
    /// whole seconds are the floor quotient by 1e9 and the sub-second nanos
    /// the nonnegative remainder.
    pub proof fn lemma_canonical_form(self)
        requires
            self.wf(),
        ensures
            self.spec_seconds() == self@ / (NANOSECONDS_IN_SECOND as int),
            self.spec_nanos() == self@ % (NANOSECONDS_IN_SECOND as int),
            total_in_range(self@),
    {
        lemma_fundamental_div_mod_converse_div(
            self@,
            NANOSECONDS_IN_SECOND as int,
            self.spec_seconds(),
            self.spec_nanos(),
        );
        lemma_fundamental_div_mod_converse_mod(
            self@,
            NANOSECONDS_IN_SECOND as int,
            self.spec_seconds(),
            self.spec_nanos(),
        );
    }

    /// Two canonical durations with one total nanosecond count are one value.
    pub proof fn lemma_view_injective(a: Duration, b: Duration)
        requires
            a.wf(),
            b.wf(),
            a@ == b@,
        ensures
            a == b,
    {
        a.lemma_canonical_form();
        b.lemma_canonical_form();
    }

    /// The duration of zero length.
    pub fn zero() -> (r: Duration)
        ensures
            r.wf(),
            r@ == 0,
            r.spec_seconds() == 0,
            r.spec_nanos() == 0,
    {
        Duration { seconds: 0, nanoseconds_of_second: 0 }
    }

    /// The duration with the greatest negative length.
    pub fn min_value() -> (r: Duration)
        ensures
            r.wf(),
            r@ == min_total_nanos(),
            r.spec_seconds() == i64::MIN,
            r.spec_nanos() == 0,
    {
        Duration { seconds: i64::MIN, nanoseconds_of_second: 0 }
    }

    /// The duration with the greatest positive length.
    pub fn max_value() -> (r: Duration)
        ensures
            r.wf(),
            r@ == max_total_nanos(),
            r.spec_seconds() == i64::MAX,
            r.spec_nanos() == NANOSECONDS_IN_SECOND - 1,
    {
        Duration { seconds: i64::MAX, nanoseconds_of_second: (NANOSECONDS_IN_SECOND - 1) as u32 }
    }

    /// Obtains a `Duration` representing a number of standard days, each of
    /// 86,400 seconds. The day count must stay representable as seconds.
    pub fn of_days(days: i64) -> (r: Duration)
        requires
            i64::MIN <= days * SECONDS_IN_DAY <= i64::MAX,
        ensures
            r.wf(),
            r@ == days * SECONDS_IN_DAY * NANOSECONDS_IN_SECOND,
            r.spec_seconds() == days * SECONDS_IN_DAY,
            r.spec_nanos() == 0,
    {
        Duration::of_seconds(days * SECONDS_IN_DAY)
    }

    /// As `of_days`, returning `None` exactly when the day count does not
    /// stay representable as seconds.
    pub fn of_days_checked(days: i64) -> (r: Option<Duration>)
        ensures
            r is Some <==> i64::MIN <= days * SECONDS_IN_DAY <= i64::MAX,
            r matches Some(d) ==> d.wf() && d@ == days * SECONDS_IN_DAY * NANOSECONDS_IN_SECOND
                && d.spec_nanos() == 0,
    {
        match days.checked_mul(SECONDS_IN_DAY) {
            None => None,
            Some(total_seconds) => Some(Duration::of_seconds(total_seconds)),
        }
    }

    /// Obtains a `Duration` representing a number of standard hours, each of
    /// 3,600 seconds. The hour count must stay representable as seconds.
    pub fn of_hours(hours: i64) -> (r: Duration)
        requires
            i64::MIN <= hours * SECONDS_IN_HOUR <= i64::MAX,
        ensures
            r.wf(),
            r@ == hours * SECONDS_IN_HOUR * NANOSECONDS_IN_SECOND,
            r.spec_seconds() == hours * SECONDS_IN_HOUR,
            r.spec_nanos() == 0,
    {
        Duration::of_seconds(hours * SECONDS_IN_HOUR)
    }

    /// As `of_hours`, returning `None` exactly when the hour count does not
    /// stay representable as seconds.
    pub fn of_hours_checked(hours: i64) -> (r: Option<Duration>)
        ensures
            r is Some <==> i64::MIN <= hours * SECONDS_IN_HOUR <= i64::MAX,
            r matches Some(d) ==> d.wf() && d@ == hours * SECONDS_IN_HOUR * NANOSECONDS_IN_SECOND
                && d.spec_nanos() == 0,
    {
        match hours.checked_mul(SECONDS_IN_HOUR) {
            None => None,
            Some(total_seconds) => Some(Duration::of_seconds(total_seconds)),
        }
    }

    /// Obtains a `Duration` representing a number of standard minutes, each
    /// of 60 seconds. The minute count must stay representable as seconds.
    pub fn of_minutes(minutes: i64) -> (r: Duration)
        requires
            i64::MIN <= minutes * SECONDS_IN_MINUTE <= i64::MAX,
        ensures
            r.wf(),
            r@ == minutes * SECONDS_IN_MINUTE * NANOSECONDS_IN_SECOND,
            r.spec_seconds() == minutes * SECONDS_IN_MINUTE,
            r.spec_nanos() == 0,
    {
        Duration::of_seconds(minutes * SECONDS_IN_MINUTE)
    }

    /// As `of_minutes`, returning `None` exactly when the minute count does
    /// not stay representable as seconds.
    pub fn of_minutes_checked(minutes: i64) -> (r: Option<Duration>)
        ensures
            r is Some <==> i64::MIN <= minutes * SECONDS_IN_MINUTE <= i64::MAX,
            r matches Some(d) ==> d.wf() && d@ == minutes * SECONDS_IN_MINUTE
                * NANOSECONDS_IN_SECOND && d.spec_nanos() == 0,
    {
        match minutes.checked_mul(SECONDS_IN_MINUTE) {
            None => None,
            Some(total_seconds) => Some(Duration::of_seconds(total_seconds)),
        }
    }

    /// Obtains a `Duration` representing a number of seconds and an
    /// adjustment in nanoseconds. The adjusted second count must stay in the
    /// `i64` range.
    pub fn of_seconds_and_adjustment(seconds: i64, nano_adjustment: i64) -> (r: Duration)
        requires
            total_in_range(nanos_total(seconds as int, nano_adjustment as int)),
        ensures
            r.wf(),
            r@ == nanos_total(seconds as int, nano_adjustment as int),
    {
        let (seconds, nanos) = match of_seconds_and_adjustment_checked(seconds, nano_adjustment) {
            Some(pair) => pair,
            None => unreached(),
        };
        Duration { seconds, nanoseconds_of_second: nanos }
    }

    /// As `of_seconds_and_adjustment`, returning `None` exactly when the
    /// adjusted second count leaves the `i64` range.
    pub fn of_seconds_and_adjustment_checked(seconds: i64, nano_adjustment: i64) -> (r: Option<
        Duration,
    >)
        ensures
            r is Some <==> total_in_range(nanos_total(seconds as int, nano_adjustment as int)),
            r matches Some(d) ==> d.wf() && d@ == nanos_total(
                seconds as int,
                nano_adjustment as int,
            ),
    {
        match of_seconds_and_adjustment_checked(seconds, nano_adjustment) {
            None => None,
            Some((seconds, nanos)) => Some(Duration { seconds, nanoseconds_of_second: nanos }),
        }
    }

    /// Obtains a `Duration` representing a number of seconds, with the
    /// nanosecond field zero.
    pub fn of_seconds(seconds: i64) -> (r: Duration)
        ensures
            r.wf(),
            r@ == seconds * NANOSECONDS_IN_SECOND,
            r.spec_seconds() == seconds,
            r.spec_nanos() == 0,
    {
        Duration { seconds, nanoseconds_of_second: 0 }
    }

    /// Obtains a `Duration` representing a number of milliseconds.
    pub fn of_millis(millis: i64) -> (r: Duration)
        ensures
            r.wf(),
            r@ == millis * NANOSECONDS_IN_MILLISECOND,
    {
        let seconds: i64 = millis / MILLISECONDS_IN_SECOND;
        let adjustment: i64 = (millis % MILLISECONDS_IN_SECOND) * NANOSECONDS_IN_MILLISECOND;

        let (second_adjustment, nanos) = carry_and_nanos(adjustment);

        Duration { seconds: seconds + second_adjustment, nanoseconds_of_second: nanos }
    }

    /// Obtains a `Duration` representing a number of nanoseconds.
    pub fn of_nanos(nanoseconds: i64) -> (r: Duration)
        ensures
            r.wf(),
            r@ == nanoseconds,
    {
        let (seconds, nanos) = seconds_and_nanos(nanoseconds);
        Duration { seconds, nanoseconds_of_second: nanos }
    }

    /// Gets the number of nanoseconds within the second in this duration.
    pub fn nano(&self) -> (r: u32)
        ensures
            r == self.spec_nanos(),
    {
        self.nanoseconds_of_second
    }

    /// Gets the number of seconds in this duration.
    pub fn seconds(&self) -> (r: i64)
        ensures
            r == self.spec_seconds(),
    {
        self.seconds
    }
}

/// The magnitude of a total nanosecond count.
pub open spec fn abs_total(total: int) -> int {
    if total >= 0 {
        total
    } else {
        -total
    }
}

/// The carry that adding two canonical durations' sub-second counts produces.
pub open spec fn add_carry(a: Duration, b: Duration) -> int {
    if a.spec_nanos() + b.spec_nanos() >= NANOSECONDS_IN_SECOND {
        1int
    } else {
        0int
    }
}

/// A whole-second count fits in `i64` exactly when the total it denotes
/// together with an in-range sub-second count is representable.
pub proof fn lemma_seconds_fit_iff_total(seconds: int, nanos: int)
    requires
        0 <= nanos < NANOSECONDS_IN_SECOND,
    ensures
        (i64::MIN <= seconds <= i64::MAX) <==> total_in_range(nanos_total(seconds, nanos)),
{
    if seconds > i64::MAX {
        assert(nanos_total(seconds, nanos) >= seconds * (NANOSECONDS_IN_SECOND as int)
            >= (i64::MAX + 1) * (NANOSECONDS_IN_SECOND as int)) by (nonlinear_arith)
            requires
                seconds > i64::MAX,
                nanos >= 0,
        ;
    }
    if seconds < i64::MIN {
        assert(nanos_total(seconds, nanos) < (seconds + 1) * (NANOSECONDS_IN_SECOND as int)
            <= i64::MIN * (NANOSECONDS_IN_SECOND as int)) by (nonlinear_arith)
            requires
                seconds < i64::MIN,
                nanos < NANOSECONDS_IN_SECOND,
        ;
    }
    if i64::MIN <= seconds <= i64::MAX {
        assert(i64::MIN * (NANOSECONDS_IN_SECOND as int) <= seconds * (NANOSECONDS_IN_SECOND
            as int) <= i64::MAX * (NANOSECONDS_IN_SECOND as int)) by (nonlinear_arith)
            requires
                i64::MIN <= seconds <= i64::MAX,
        ;
    }
}

/// Folds a second count and a nanosecond sum, at most one carry step out of
/// canonical range, onto a base second count, returning `None` exactly when
/// one of the two checked second additions leaves the `i64` range. The
/// nanosecond sum must already be within one carry step of canonical
/// (canonical durations guarantee this before adding).
fn plus_internal(left_seconds: i64, right_seconds: i64, nanos: i64) -> (r: Option<Duration>)
    requires
        -NANOSECONDS_IN_SECOND < nanos < 2 * NANOSECONDS_IN_SECOND,
    ensures
        r is Some <==> {
            let carry = nanos_carry(nanos as int);
            &&& i64::MIN <= right_seconds + carry <= i64::MAX
            &&& i64::MIN <= left_seconds + right_seconds + carry <= i64::MAX
        },
        r matches Some(d) ==> d.wf() && d@ == nanos_total(
            left_seconds + right_seconds,
            nanos as int,
        ),
{
    let (adjustment, final_nanos) = carry_and_nanos(nanos);

    match right_seconds.checked_add(adjustment) {
        None => None,
        Some(adjusted_seconds) => match left_seconds.checked_add(adjusted_seconds) {
            None => None,
            Some(final_seconds) => Some(
                Duration { seconds: final_seconds, nanoseconds_of_second: final_nanos },
            ),
        },
    }
}

/// The second carry a nanosecond count one step out of canonical range folds
/// back into the whole seconds.
pub open spec fn nanos_carry(nanos: int) -> int {
    if nanos < 0 {
        -1int
    } else if nanos >= NANOSECONDS_IN_SECOND {
        1int
    } else {
        0int
    }
}

/// Negates a canonical duration, returning `None` exactly on the duration of
/// greatest negative length, whose positive counterpart is unrepresentable.
pub fn checked_neg(duration: Duration) -> (r: Option<Duration>)
    requires
        duration.wf(),
    ensures
        r is Some <==> duration@ != min_total_nanos(),
        r matches Some(d) ==> d.wf() && d@ == -duration@,
{
    let seconds = duration.seconds();
    let nanos = duration.nano();
    if seconds == i64::MIN && nanos == 0 {
        None
    } else if seconds == i64::MIN {
        Some(
            Duration {
                seconds: i64::MAX,
                nanoseconds_of_second: (NANOSECONDS_IN_SECOND as u32) - nanos,
            },
        )
    } else {
        let (adjustment, flipped_nanos) = carry_and_nanos(-(nanos as i64));
        Some(Duration { seconds: -seconds + adjustment, nanoseconds_of_second: flipped_nanos })
    }
}

impl Duration {
    /// Returns a new duration with a positive length and matching amplitude.
    /// The duration of greatest negative length has no positive counterpart
    /// and is excluded.
    pub fn abs(self) -> (r: Duration)
        requires
            self.wf(),
            self@ != min_total_nanos(),
        ensures
            r.wf(),
            r@ == abs_total(self@),
    {
        if self.seconds >= 0 {
            self
        } else {
            match checked_neg(self) {
                Some(negated) => negated,
                None => unreached(),
            }
        }
    }

    /// Returns a copy of this duration with the length negated. The duration
    /// of greatest negative length has no positive counterpart and is
    /// excluded.
    pub fn negated(self) -> (r: Duration)
        requires
            self.wf(),
            self@ != min_total_nanos(),
        ensures
            r.wf(),
            r@ == -self@,
    {
        match checked_neg(self) {
            Some(negated) => negated,
            None => unreached(),
        }
    }

    /// Adds one duration to another. The sum must be representable, and the
    /// intermediate second count of the right operand adjusted by the
    /// nanosecond carry must itself stay in the `i64` range.
    pub fn plus(self, rhs: Duration) -> (r: Duration)
        requires
            self.wf(),
            rhs.wf(),
            rhs.spec_seconds() + add_carry(self, rhs) <= i64::MAX,
            total_in_range(self@ + rhs@),
        ensures
            r.wf(),
            r@ == self@ + rhs@,
    {
        match self.plus_checked(rhs) {
            Some(sum) => sum,
            None => unreached(),
        }
    }

    /// As `plus`, returning `None` exactly when the sum is unrepresentable or
    /// the carry-adjusted right second count leaves the `i64` range.
    pub fn plus_checked(self, rhs: Duration) -> (r: Option<Duration>)
        requires
            self.wf(),
            rhs.wf(),
        ensures
            r is Some <==> rhs.spec_seconds() + add_carry(self, rhs) <= i64::MAX && total_in_range(
                self@ + rhs@,
            ),
            r matches Some(d) ==> d.wf() && d@ == self@ + rhs@,
    {
        proof {
            lemma_seconds_fit_iff_total(
                self.spec_seconds() + rhs.spec_seconds() + add_carry(self, rhs),
                self.spec_nanos() + rhs.spec_nanos() - add_carry(self, rhs) * (NANOSECONDS_IN_SECOND
                    as int),
            );
        }
        plus_internal(self.seconds, rhs.seconds, (self.nanoseconds_of_second as i64)
            + (rhs.nanoseconds_of_second as i64))
    }

    /// Subtracts one duration from another. The difference must be
    /// representable.
    pub fn minus(self, rhs: Duration) -> (r: Duration)
        requires
            self.wf(),
            rhs.wf(),
            total_in_range(self@ - rhs@),
        ensures
            r.wf(),
            r@ == self@ - rhs@,
    {
        match self.minus_checked(rhs) {
            Some(difference) => difference,
            None => unreached(),
        }
    }

    /// As `minus`, returning `None` exactly when the difference is
    /// unrepresentable.
    pub fn minus_checked(self, rhs: Duration) -> (r: Option<Duration>)
        requires
            self.wf(),
            rhs.wf(),
        ensures
            r is Some <==> total_in_range(self@ - rhs@),
            r matches Some(d) ==> d.wf() && d@ == self@ - rhs@,
    {
        proof {
            self.lemma_canonical_form();
            lemma_seconds_fit_iff_total(
                self.spec_seconds() - rhs.spec_seconds() + nanos_carry_sub(self, rhs),
                self.spec_nanos() - rhs.spec_nanos() - nanos_carry_sub(self, rhs)
                    * (NANOSECONDS_IN_SECOND as int),
            );
        }
        if rhs.seconds == 0 && rhs.nanoseconds_of_second == 0 {
            Some(self)
        } else if rhs.seconds == i64::MIN {
            // Offset the nanoseconds early: negating the minimum second count
            // is itself unrepresentable, so the subtraction is split into a
            // one-second step and a remaining i64::MAX-second step.
            match plus_internal(
                self.seconds,
                1,
                (self.nanoseconds_of_second as i64) - (rhs.nanoseconds_of_second as i64),
            ) {
                None => None,
                Some(added) => {
                    proof {
                        added.lemma_canonical_form();
                        lemma_seconds_fit_iff_total(
                            added.spec_seconds() + i64::MAX,
                            added.spec_nanos(),
                        );
                    }
                    plus_internal(added.seconds, i64::MAX, added.nanoseconds_of_second as i64)
                },
            }
        } else {
            plus_internal(self.seconds, -rhs.seconds, (self.nanoseconds_of_second as i64)
                - (rhs.nanoseconds_of_second as i64))
        }
    }

    /// Adds one duration onto this one in place, under the conditions of
    /// `plus`.
    pub fn plus_assign(&mut self, rhs: Duration)
        requires
            old(self).wf(),
            rhs.wf(),
            rhs.spec_seconds() + add_carry(*old(self), rhs) <= i64::MAX,
            total_in_range(old(self)@ + rhs@),
        ensures
            final(self).wf(),
            final(self)@ == old(self)@ + rhs@,
    {
        *self = (*self).plus(rhs);
    }

    /// Subtracts one duration from this one in place, under the conditions
    /// of `minus`.
    pub fn minus_assign(&mut self, rhs: Duration)
        requires
            old(self).wf(),
            rhs.wf(),
            total_in_range(old(self)@ - rhs@),
        ensures
            final(self).wf(),
            final(self)@ == old(self)@ - rhs@,
    {
        *self = (*self).minus(rhs);
    }
}

impl Duration {
    /// Adds a number of standard days, each of 86,400 seconds. The day count
    /// must stay representable as seconds and the sum must be representable.
    pub fn plus_days(self, days: i64) -> (r: Duration)
        requires
            self.wf(),
            i64::MIN <= days * SECONDS_IN_DAY <= i64::MAX,
            total_in_range(self@ + days * SECONDS_IN_DAY * NANOSECONDS_IN_SECOND),
        ensures
            r.wf(),
            r@ == self@ + days * SECONDS_IN_DAY * NANOSECONDS_IN_SECOND,
    {
        match self.plus_days_checked(days) {
            Some(sum) => sum,
            None => unreached(),
        }
    }

    /// As `plus_days`, returning `None` exactly when the day count does not
    /// stay representable as seconds or the sum is unrepresentable.
    pub fn plus_days_checked(self, days: i64) -> (r: Option<Duration>)
        requires
            self.wf(),
        ensures
            r is Some <==> (i64::MIN <= days * SECONDS_IN_DAY <= i64::MAX) && total_in_range(
                self@ + days * SECONDS_IN_DAY * NANOSECONDS_IN_SECOND,
            ),
            r matches Some(d) ==> d.wf() && d@ == self@ + days * SECONDS_IN_DAY
                * NANOSECONDS_IN_SECOND,
    {
        if days == 0 {
            proof {
                self.lemma_canonical_form();
            }
            Some(self)
        } else if self.seconds == 0 && self.nanoseconds_of_second == 0 {
            proof {
                lemma_seconds_fit_iff_total(days * (SECONDS_IN_DAY as int), 0);
            }
            Duration::of_days_checked(days)
        } else {
            match days.checked_mul(SECONDS_IN_DAY) {
                None => None,
                Some(total_seconds) => {
                    proof {
                        lemma_seconds_fit_iff_total(
                            self.spec_seconds() + total_seconds,
                            self.spec_nanos(),
                        );
                    }
                    plus_internal(self.seconds, total_seconds, self.nanoseconds_of_second as i64)
                },
            }
        }
    }

    /// Adds a number of standard hours, each of 3,600 seconds. The hour
    /// count must stay representable as seconds and the sum must be
    /// representable.
    pub fn plus_hours(self, hours: i64) -> (r: Duration)
        requires
            self.wf(),
            i64::MIN <= hours * SECONDS_IN_HOUR <= i64::MAX,
            total_in_range(self@ + hours * SECONDS_IN_HOUR * NANOSECONDS_IN_SECOND),
        ensures
            r.wf(),
            r@ == self@ + hours * SECONDS_IN_HOUR * NANOSECONDS_IN_SECOND,
    {
        match self.plus_hours_checked(hours) {
            Some(sum) => sum,
            None => unreached(),
        }
    }

    /// As `plus_hours`, returning `None` exactly when the hour count does
    /// not stay representable as seconds or the sum is unrepresentable.
    pub fn plus_hours_checked(self, hours: i64) -> (r: Option<Duration>)
        requires
            self.wf(),
        ensures
            r is Some <==> (i64::MIN <= hours * SECONDS_IN_HOUR <= i64::MAX) && total_in_range(
                self@ + hours * SECONDS_IN_HOUR * NANOSECONDS_IN_SECOND,
            ),
            r matches Some(d) ==> d.wf() && d@ == self@ + hours * SECONDS_IN_HOUR
                * NANOSECONDS_IN_SECOND,
    {
        if hours == 0 {
            proof {
                self.lemma_canonical_form();
            }
            Some(self)
        } else if self.seconds == 0 && self.nanoseconds_of_second == 0 {
            proof {
                lemma_seconds_fit_iff_total(hours * (SECONDS_IN_HOUR as int), 0);
            }
            Duration::of_hours_checked(hours)
        } else {
            match hours.checked_mul(SECONDS_IN_HOUR) {
                None => None,
                Some(total_seconds) => {
                    proof {
                        lemma_seconds_fit_iff_total(
                            self.spec_seconds() + total_seconds,
                            self.spec_nanos(),
                        );
                    }
                    plus_internal(self.seconds, total_seconds, self.nanoseconds_of_second as i64)
                },
            }
        }
    }

    /// Adds a number of standard minutes, each of 60 seconds. The minute
    /// count must stay representable as seconds and the sum must be
    /// representable.
    pub fn plus_minutes(self, minutes: i64) -> (r: Duration)
        requires
            self.wf(),
            i64::MIN <= minutes * SECONDS_IN_MINUTE <= i64::MAX,
            total_in_range(self@ + minutes * SECONDS_IN_MINUTE * NANOSECONDS_IN_SECOND),
        ensures
            r.wf(),
            r@ == self@ + minutes * SECONDS_IN_MINUTE * NANOSECONDS_IN_SECOND,
    {
        match self.plus_minutes_checked(minutes) {
            Some(sum) => sum,
            None => unreached(),
        }
    }

    /// As `plus_minutes`, returning `None` exactly when the minute count
    /// does not stay representable as seconds or the sum is unrepresentable.
    pub fn plus_minutes_checked(self, minutes: i64) -> (r: Option<Duration>)
        requires
            self.wf(),
        ensures
            r is Some <==> (i64::MIN <= minutes * SECONDS_IN_MINUTE <= i64::MAX) && total_in_range(
                self@ + minutes * SECONDS_IN_MINUTE * NANOSECONDS_IN_SECOND,
            ),
            r matches Some(d) ==> d.wf() && d@ == self@ + minutes * SECONDS_IN_MINUTE
                * NANOSECONDS_IN_SECOND,
    {
        if minutes == 0 {
            proof {
                self.lemma_canonical_form();
            }
            Some(self)
        } else if self.seconds == 0 && self.nanoseconds_of_second == 0 {
            proof {
                lemma_seconds_fit_iff_total(minutes * (SECONDS_IN_MINUTE as int), 0);
            }
            Duration::of_minutes_checked(minutes)
        } else {
            match minutes.checked_mul(SECONDS_IN_MINUTE) {
                None => None,
                Some(total_seconds) => {
                    proof {
                        lemma_seconds_fit_iff_total(
                            self.spec_seconds() + total_seconds,
                            self.spec_nanos(),
                        );
                    }
                    plus_internal(self.seconds, total_seconds, self.nanoseconds_of_second as i64)
                },
            }
        }
    }

    /// Adds a number of seconds. The sum must be representable.
    pub fn plus_seconds(self, seconds: i64) -> (r: Duration)
        requires
            self.wf(),
            total_in_range(self@ + seconds * NANOSECONDS_IN_SECOND),
        ensures
            r.wf(),
            r@ == self@ + seconds * NANOSECONDS_IN_SECOND,
    {
        match self.plus_seconds_checked(seconds) {
            Some(sum) => sum,
            None => unreached(),
        }
    }

    /// As `plus_seconds`, returning `None` exactly when the sum is
    /// unrepresentable.
    pub fn plus_seconds_checked(self, seconds: i64) -> (r: Option<Duration>)
        requires
            self.wf(),
        ensures
            r is Some <==> total_in_range(self@ + seconds * NANOSECONDS_IN_SECOND),
            r matches Some(d) ==> d.wf() && d@ == self@ + seconds * NANOSECONDS_IN_SECOND,
    {
        if seconds == 0 {
            proof {
                self.lemma_canonical_form();
            }
            Some(self)
        } else if self.seconds == 0 && self.nanoseconds_of_second == 0 {
            proof {
                lemma_seconds_fit_iff_total(seconds as int, 0);
            }
            Some(Duration::of_seconds(seconds))
        } else {
            proof {
                lemma_seconds_fit_iff_total(
                    self.spec_seconds() + seconds,
                    self.spec_nanos(),
                );
            }
            plus_internal(self.seconds, seconds, self.nanoseconds_of_second as i64)
        }
    }

    /// Adds a number of milliseconds. The sum must be representable.
    pub fn plus_millis(self, millis: i64) -> (r: Duration)
        requires
            self.wf(),
            total_in_range(self@ + millis * NANOSECONDS_IN_MILLISECOND),
        ensures
            r.wf(),
            r@ == self@ + millis * NANOSECONDS_IN_MILLISECOND,
    {
        match self.plus_millis_checked(millis) {
            Some(sum) => sum,
            None => unreached(),
        }
    }

    /// As `plus_millis`, returning `None` exactly when the sum is
    /// unrepresentable.
    pub fn plus_millis_checked(self, millis: i64) -> (r: Option<Duration>)
        requires
            self.wf(),
        ensures
            r is Some <==> total_in_range(self@ + millis * NANOSECONDS_IN_MILLISECOND),
            r matches Some(d) ==> d.wf() && d@ == self@ + millis * NANOSECONDS_IN_MILLISECOND,
    {
        if millis == 0 {
            proof {
                self.lemma_canonical_form();
            }
            Some(self)
        } else if self.seconds == 0 && self.nanoseconds_of_second == 0 {
            Some(Duration::of_millis(millis))
        } else {
            let other_seconds: i64 = millis / MILLISECONDS_IN_SECOND;
            let other_nanos: i64 = (millis % MILLISECONDS_IN_SECOND) * NANOSECONDS_IN_MILLISECOND;
            proof {
                lemma_seconds_fit_iff_total(
                    self.spec_seconds() + other_seconds + nanos_carry(
                        self.spec_nanos() + other_nanos,
                    ),
                    self.spec_nanos() + other_nanos - nanos_carry(self.spec_nanos() + other_nanos)
                        * (NANOSECONDS_IN_SECOND as int),
                );
            }
            plus_internal(
                self.seconds,
                other_seconds,
                (self.nanoseconds_of_second as i64) + other_nanos,
            )
        }
    }

    /// Adds a number of nanoseconds. The sum must be representable.
    pub fn plus_nanos(self, nanos: i64) -> (r: Duration)
        requires
            self.wf(),
            total_in_range(self@ + nanos),
        ensures
            r.wf(),
            r@ == self@ + nanos,
    {
        match self.plus_nanos_checked(nanos) {
            Some(sum) => sum,
            None => unreached(),
        }
    }

    /// As `plus_nanos`, returning `None` exactly when the sum is
    /// unrepresentable.
    pub fn plus_nanos_checked(self, nanos: i64) -> (r: Option<Duration>)
        requires
            self.wf(),
        ensures
            r is Some <==> total_in_range(self@ + nanos),
            r matches Some(d) ==> d.wf() && d@ == self@ + nanos,
    {
        if nanos == 0 {
            proof {
                self.lemma_canonical_form();
            }
            Some(self)
        } else if self.seconds == 0 && self.nanoseconds_of_second == 0 {
            Some(Duration::of_nanos(nanos))
        } else {
            let other_seconds: i64 = nanos / NANOSECONDS_IN_SECOND;
            let other_nanos: i64 = nanos % NANOSECONDS_IN_SECOND;
            proof {
                lemma_seconds_fit_iff_total(
                    self.spec_seconds() + other_seconds + nanos_carry(
                        self.spec_nanos() + other_nanos,
                    ),
                    self.spec_nanos() + other_nanos - nanos_carry(self.spec_nanos() + other_nanos)
                        * (NANOSECONDS_IN_SECOND as int),
                );
            }
            plus_internal(
                self.seconds,
                other_seconds,
                (self.nanoseconds_of_second as i64) + other_nanos,
            )
        }
    }
}

impl Duration {
    /// Subtracts a number of standard days, each of 86,400 seconds. The
    /// negated day count must stay representable as seconds and the
    /// difference must be representable.
    pub fn minus_days(self, days: i64) -> (r: Duration)
        requires
            self.wf(),
            i64::MIN <= -(days as int) * SECONDS_IN_DAY <= i64::MAX,
            total_in_range(self@ - days * SECONDS_IN_DAY * NANOSECONDS_IN_SECOND),
        ensures
            r.wf(),
            r@ == self@ - days * SECONDS_IN_DAY * NANOSECONDS_IN_SECOND,
    {
        let negated: i64 = if days == i64::MIN {
            unreached()
        } else {
            -days
        };
        proof {
            lemma_mul_unary_negation(days as int, SECONDS_IN_DAY as int);
            lemma_mul_unary_negation(
                days * (SECONDS_IN_DAY as int),
                NANOSECONDS_IN_SECOND as int,
            );
        }
        self.plus_days(negated)
    }

    /// Subtracts a number of standard hours, each of 3,600 seconds. The
    /// negated hour count must stay representable as seconds and the
    /// difference must be representable.
    pub fn minus_hours(self, hours: i64) -> (r: Duration)
        requires
            self.wf(),
            i64::MIN <= -(hours as int) * SECONDS_IN_HOUR <= i64::MAX,
            total_in_range(self@ - hours * SECONDS_IN_HOUR * NANOSECONDS_IN_SECOND),
        ensures
            r.wf(),
            r@ == self@ - hours * SECONDS_IN_HOUR * NANOSECONDS_IN_SECOND,
    {
        let negated: i64 = if hours == i64::MIN {
            unreached()
        } else {
            -hours
        };
        proof {
            lemma_mul_unary_negation(hours as int, SECONDS_IN_HOUR as int);
            lemma_mul_unary_negation(
                hours * (SECONDS_IN_HOUR as int),
                NANOSECONDS_IN_SECOND as int,
            );
        }
        self.plus_hours(negated)
    }

    /// Subtracts a number of standard minutes, each of 60 seconds. The
    /// negated minute count must stay representable as seconds and the
    /// difference must be representable.
    pub fn minus_minutes(self, minutes: i64) -> (r: Duration)
        requires
            self.wf(),
            i64::MIN <= -(minutes as int) * SECONDS_IN_MINUTE <= i64::MAX,
            total_in_range(self@ - minutes * SECONDS_IN_MINUTE * NANOSECONDS_IN_SECOND),
        ensures
            r.wf(),
            r@ == self@ - minutes * SECONDS_IN_MINUTE * NANOSECONDS_IN_SECOND,
    {
        let negated: i64 = if minutes == i64::MIN {
            unreached()
        } else {
            -minutes
        };
        proof {
            lemma_mul_unary_negation(minutes as int, SECONDS_IN_MINUTE as int);
            lemma_mul_unary_negation(
                minutes * (SECONDS_IN_MINUTE as int),
                NANOSECONDS_IN_SECOND as int,
            );
        }
        self.plus_minutes(negated)
    }

    /// Subtracts a number of seconds. The difference must be representable.
    pub fn minus_seconds(self, seconds: i64) -> (r: Duration)
        requires
            self.wf(),
            total_in_range(self@ - seconds * NANOSECONDS_IN_SECOND),
        ensures
            r.wf(),
            r@ == self@ - seconds * NANOSECONDS_IN_SECOND,
    {
        if seconds == i64::MIN {
            // Negating the minimum second count is itself unrepresentable:
            // subtract it as one second and then i64::MAX further seconds.
            self.plus_seconds(1).plus_seconds(i64::MAX)
        } else {
            self.plus_seconds(-seconds)
        }
    }

    /// Subtracts a number of milliseconds. The difference must be
    /// representable.
    pub fn minus_millis(self, millis: i64) -> (r: Duration)
        requires
            self.wf(),
            total_in_range(self@ - millis * NANOSECONDS_IN_MILLISECOND),
        ensures
            r.wf(),
            r@ == self@ - millis * NANOSECONDS_IN_MILLISECOND,
    {
        if millis == i64::MIN {
            // Negating the minimum millisecond count is itself
            // unrepresentable: subtract it in two representable steps.
            self.plus_millis(1).plus_millis(i64::MAX)
        } else {
            self.plus_millis(-millis)
        }
    }

    /// Subtracts a number of nanoseconds. The difference must be
    /// representable.
    pub fn minus_nanos(self, nanos: i64) -> (r: Duration)
        requires
            self.wf(),
            total_in_range(self@ - nanos),
        ensures
            r.wf(),
            r@ == self@ - nanos,
    {
        if nanos == i64::MIN {
            // Negating the minimum nanosecond count is itself
            // unrepresentable: subtract it in two representable steps.
            self.plus_nanos(1).plus_nanos(i64::MAX)
        } else {
            self.plus_nanos(-nanos)
        }
    }
}

/// Quotient of Rust's truncating division, defined for a positive divisor.
pub open spec fn div_towards_zero(a: int, b: int) -> int {
    if a >= 0 {
        a / b
    } else {
        -((-a) / b)
    }
}

/// Remainder of Rust's truncating division: carries the sign of the
/// dividend, defined for a positive divisor.
pub open spec fn rem_towards_zero(a: int, b: int) -> int {
    a - b * div_towards_zero(a, b)
}

/// Splits a representable total nanosecond count into the canonical
/// (seconds, sub-second nanos) pair.
fn split_total(total: i128) -> (r: (i64, u32))
    requires
        total_in_range(total as int),
    ensures
        nanos_total(r.0 as int, r.1 as int) == total,
        r.1 < NANOSECONDS_IN_SECOND,
{
    let quotient: i128 = total / (NANOSECONDS_IN_SECOND as i128);
    let remainder: i128 = total % (NANOSECONDS_IN_SECOND as i128);
    if remainder < 0 {
        ((quotient - 1) as i64, (remainder + NANOSECONDS_IN_SECOND as i128) as u32)
    } else {
        (quotient as i64, remainder as u32)
    }
}

impl Duration {
    /// Multiplies this duration by a scalar. The product must be
    /// representable.
    pub fn multiplied_by(self, scalar: i64) -> (r: Duration)
        requires
            self.wf(),
            total_in_range(self@ * scalar),
        ensures
            r.wf(),
            r@ == self@ * scalar,
    {
        match self.multiplied_by_checked(scalar) {
            Some(product) => product,
            None => unreached(),
        }
    }

    /// As `multiplied_by`, returning `None` exactly when the product is
    /// unrepresentable. The product is formed on a 128-bit intermediate so
    /// that overflow is detected only at the representation boundary itself.
    pub fn multiplied_by_checked(self, scalar: i64) -> (r: Option<Duration>)
        requires
            self.wf(),
        ensures
            r is Some <==> total_in_range(self@ * scalar),
            r matches Some(d) ==> d.wf() && d@ == self@ * scalar,
    {
        proof {
            lemma_total_bound_values();
            self.lemma_canonical_form();
        }
        let wide: i128 = (self.seconds as i128) * (NANOSECONDS_IN_SECOND as i128)
            + (self.nanoseconds_of_second as i128);
        match wide.checked_mul(scalar as i128) {
            None => {
                proof {
                    lemma_wide_product_bounded(self@, scalar as int);
                }
                None
            },
            Some(product) => {
                if product < MIN_TOTAL_NANOSECONDS || product > MAX_TOTAL_NANOSECONDS {
                    None
                } else {
                    let (seconds, nanos) = split_total(product);
                    Some(Duration { seconds, nanoseconds_of_second: nanos })
                }
            },
        }
    }

    /// Scales this duration by a scalar in place, under the conditions of
    /// `multiplied_by`.
    pub fn multiply_assign(&mut self, scalar: i64)
        requires
            old(self).wf(),
            total_in_range(old(self)@ * scalar),
        ensures
            final(self).wf(),
            final(self)@ == old(self)@ * scalar,
    {
        *self = (*self).multiplied_by(scalar);
    }

    /// The total number of whole days in the duration: the second count
    /// divided by 86,400, truncating toward zero.
    pub fn to_days(&self) -> (r: i64)
        ensures
            r == div_towards_zero(self.spec_seconds(), SECONDS_IN_DAY as int),
    {
        self.seconds / SECONDS_IN_DAY
    }

    /// The total number of whole hours in the duration: the second count
    /// divided by 3,600, truncating toward zero.
    pub fn to_hours(&self) -> (r: i64)
        ensures
            r == div_towards_zero(self.spec_seconds(), SECONDS_IN_HOUR as int),
    {
        self.seconds / SECONDS_IN_HOUR
    }

    /// The total number of whole minutes in the duration: the second count
    /// divided by 60, truncating toward zero.
    pub fn to_minutes(&self) -> (r: i64)
        ensures
            r == div_towards_zero(self.spec_seconds(), SECONDS_IN_MINUTE as int),
    {
        self.seconds / SECONDS_IN_MINUTE
    }

    /// The total number of milliseconds in the duration. Both the scaled
    /// second count and the completed sum must stay in the `i64` range.
    pub fn to_millis(&self) -> (r: i64)
        requires
            self.wf(),
            i64::MIN <= self.spec_seconds() * MILLISECONDS_IN_SECOND <= i64::MAX,
            self.spec_seconds() * MILLISECONDS_IN_SECOND + self.spec_nanos() / (
            NANOSECONDS_IN_MILLISECOND as int) <= i64::MAX,
        ensures
            r == self.spec_seconds() * MILLISECONDS_IN_SECOND + self.spec_nanos() / (
            NANOSECONDS_IN_MILLISECOND as int),
    {
        let scaled: i64 = self.seconds * MILLISECONDS_IN_SECOND;
        scaled + (self.nanoseconds_of_second / (NANOSECONDS_IN_MILLISECOND as u32)) as i64
    }

    /// The total number of nanoseconds in the duration. Both the scaled
    /// second count and the completed sum must stay in the `i64` range.
    pub fn to_nanos(&self) -> (r: i64)
        requires
            self.wf(),
            i64::MIN <= self.spec_seconds() * NANOSECONDS_IN_SECOND <= i64::MAX,
            self.spec_seconds() * NANOSECONDS_IN_SECOND + self.spec_nanos() <= i64::MAX,
        ensures
            r == self@,
    {
        let scaled: i64 = self.seconds * NANOSECONDS_IN_SECOND;
        scaled + self.nanoseconds_of_second as i64
    }
}

/// A product that overflows the 128-bit intermediate lies far outside the
/// representable range.
proof fn lemma_wide_product_bounded(total: int, scalar: int)
    requires
        total_in_range(total),
        !(i128::MIN <= total * scalar <= i128::MAX),
    ensures
        !total_in_range(total * scalar),
{
}

/// The borrow that subtracting two canonical durations' sub-second counts
/// produces.
pub open spec fn nanos_carry_sub(a: Duration, b: Duration) -> int {
    if a.spec_nanos() - b.spec_nanos() < 0 {
        -1int
    } else {
        0int
    }
}

} // verus!
