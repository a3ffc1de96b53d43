//! An instantaneous point in time along a continuous timeline.
//!
//! An `Instant` is epoch-relative: its value is the total count of
//! nanoseconds since the epoch (the view `i@`), held in the same canonical
//! (whole seconds, sub-second nanos) machine form as a `Duration`. The two
//! types share the normalization algorithm but stay deliberately distinct:
//! an instant is a point, a duration a span, and this core gives the instant
//! no arithmetic of its own.

use vstd::arithmetic::div_mod::lemma_fundamental_div_mod_converse_div;
use vstd::arithmetic::div_mod::lemma_fundamental_div_mod_converse_mod;
use vstd::prelude::*;

use crate::constants::MILLISECONDS_IN_SECOND;
use crate::constants::NANOSECONDS_IN_MILLISECOND;
use crate::constants::NANOSECONDS_IN_SECOND;
use crate::seconds_nanos::carry_and_nanos;
use crate::seconds_nanos::max_total_nanos;
use crate::seconds_nanos::min_total_nanos;
use crate::seconds_nanos::nanos_total;
use crate::seconds_nanos::of_seconds_and_adjustment_checked;
use crate::seconds_nanos::total_in_range;

verus! {

/// An instantaneous point in time, a count of nanoseconds from the epoch.
#[derive(Clone, Copy, Debug, Default, Eq, Hash, Ord, PartialEq, PartialOrd, Structural)]
pub struct Instant {
    epoch_second: i64,
    nanosecond_of_second: u32,
}

impl View for Instant {
    type V = int;

    /// The total count of nanoseconds from the epoch this instant denotes.
    open spec fn view(&self) -> int {
        nanos_total(self.spec_epoch_second(), self.spec_nanos())
    }
}

impl Instant {
    /// The whole-second count of the machine form.
    pub closed spec fn spec_epoch_second(self) -> int {
        self.epoch_second as int
    }

    /// The sub-second nanosecond count of the machine form.
    pub closed spec fn spec_nanos(self) -> int {
        self.nanosecond_of_second as int
    }

    /// Canonical form: the sub-second count lies in `0..1_000_000_000`.
    pub open spec fn wf(self) -> bool {
        0 <= self.spec_nanos() < NANOSECONDS_IN_SECOND
    }

    /// A canonical instant is determined by its total nanosecond count: the
    /// whole seconds are the floor quotient by 1e9 and the sub-second nanos
    /// the nonnegative remainder.
    pub proof fn lemma_canonical_form(self)
        requires
            self.wf(),
        ensures
            self.spec_epoch_second() == self@ / (NANOSECONDS_IN_SECOND as int),
            self.spec_nanos() == self@ % (NANOSECONDS_IN_SECOND as int),
            total_in_range(self@),
    {
        lemma_fundamental_div_mod_converse_div(
            self@,
            NANOSECONDS_IN_SECOND as int,
            self.spec_epoch_second(),
            self.spec_nanos(),
        );
        lemma_fundamental_div_mod_converse_mod(
            self@,
            NANOSECONDS_IN_SECOND as int,
            self.spec_epoch_second(),
            self.spec_nanos(),
        );
    }

    /// Two canonical instants with one total nanosecond count are one value.
    pub proof fn lemma_view_injective(a: Instant, b: Instant)
        requires
            a.wf(),
            b.wf(),
            a@ == b@,
        ensures
            a == b,
    {
        a.lemma_canonical_form();
        b.lemma_canonical_form();
    }

    /// The earliest possible instant.
    pub fn min_value() -> (r: Instant)
        ensures
            r.wf(),
            r@ == min_total_nanos(),
            r.spec_epoch_second() == i64::MIN,
            r.spec_nanos() == 0,
    {
        Instant { epoch_second: i64::MIN, nanosecond_of_second: 0 }
    }

    /// The epoch instant itself.
    pub fn epoch() -> (r: Instant)
        ensures
            r.wf(),
            r@ == 0,
            r.spec_epoch_second() == 0,
            r.spec_nanos() == 0,
    {
        Instant { epoch_second: 0, nanosecond_of_second: 0 }
    }

    /// The last possible instant.
    pub fn max_value() -> (r: Instant)
        ensures
            r.wf(),
            r@ == max_total_nanos(),
            r.spec_epoch_second() == i64::MAX,
            r.spec_nanos() == NANOSECONDS_IN_SECOND - 1,
    {
        Instant { epoch_second: i64::MAX, nanosecond_of_second: (NANOSECONDS_IN_SECOND - 1) as u32 }
    }

    /// Obtains an `Instant` from a count of milliseconds since the epoch.
    pub fn of_epoch_milli(epoch_milliseconds: i64) -> (r: Instant)
        ensures
            r.wf(),
            r@ == epoch_milliseconds * NANOSECONDS_IN_MILLISECOND,
    {
        let seconds: i64 = epoch_milliseconds / MILLISECONDS_IN_SECOND;
        let adjustment: i64 = (epoch_milliseconds % MILLISECONDS_IN_SECOND)
            * NANOSECONDS_IN_MILLISECOND;

        let (second_adjustment, nanos) = carry_and_nanos(adjustment);

        Instant { epoch_second: seconds + second_adjustment, nanosecond_of_second: nanos }
    }

    /// Obtains an `Instant` from a count of seconds since the epoch, with
    /// the nanosecond field zero.
    pub fn of_epoch_second(epoch_seconds: i64) -> (r: Instant)
        ensures
            r.wf(),
            r@ == epoch_seconds * NANOSECONDS_IN_SECOND,
            r.spec_epoch_second() == epoch_seconds,
            r.spec_nanos() == 0,
    {
        Instant { epoch_second: epoch_seconds, nanosecond_of_second: 0 }
    }

    /// Obtains an `Instant` from a count of seconds since the epoch and an
    /// adjustment in nanoseconds. The adjusted second count must stay in the
    /// `i64` range.
    pub fn of_epoch_second_and_adjustment(epoch_seconds: i64, nano_adjustment: i64) -> (r: Instant)
        requires
            total_in_range(nanos_total(epoch_seconds as int, nano_adjustment as int)),
        ensures
            r.wf(),
            r@ == nanos_total(epoch_seconds as int, nano_adjustment as int),
    {
        match Instant::of_epoch_second_and_adjustment_checked(epoch_seconds, nano_adjustment) {
            Some(instant) => instant,
            None => unreached(),
        }
    }

    /// As `of_epoch_second_and_adjustment`, returning `None` exactly when
    /// the adjusted second count leaves the `i64` range.
    pub fn of_epoch_second_and_adjustment_checked(seconds: i64, nano_adjustment: i64) -> (r: Option<
        Instant,
    >)
        ensures
            r is Some <==> total_in_range(nanos_total(seconds as int, nano_adjustment as int)),
            r matches Some(i) ==> i.wf() && i@ == nanos_total(
                seconds as int,
                nano_adjustment as int,
            ),
    {
        match of_seconds_and_adjustment_checked(seconds, nano_adjustment) {
            None => None,
            Some((seconds, nanos)) => Some(
                Instant { epoch_second: seconds, nanosecond_of_second: nanos },
            ),
        }
    }

    /// Gets the number of seconds before or after the epoch.
    pub fn epoch_second(&self) -> (r: i64)
        ensures
            r == self.spec_epoch_second(),
    {
        self.epoch_second
    }

    /// Gets the number of nanoseconds farther along the timeline in this
    /// instant.
    pub fn nano(&self) -> (r: u32)
        ensures
            r == self.spec_nanos(),
    {
        self.nanosecond_of_second
    }
}

} // verus!
