//! ISO-8601 seconds-based rendering of a `Duration`, such as
//! `PT8H6M12.345S`.
//!
//! The zero duration renders as the literal `PT0S`. Otherwise the sign is
//! folded once into an effective (seconds, nanos) pair so that the printed
//! seconds token carries the sign together with its fraction; hours, minutes
//! and seconds are then cut out of the effective seconds by division and
//! remainder against 3,600 and 60, each token omitted when zero, except that
//! the seconds token stays whenever a fraction is present, and a negative
//! sub-second value with no whole seconds prints the literal `-0` before its
//! fraction. A nonzero fraction is printed as nine zero-padded digits with
//! the trailing zeros stripped.

use vstd::prelude::*;
use vstd::string::StringExecFns;

use crate::constants::NANOSECONDS_IN_SECOND;
use crate::constants::SECONDS_IN_HOUR;
use crate::constants::SECONDS_IN_MINUTE;
use crate::decimal::fraction_string;
use crate::decimal::int_string;
use crate::decimal::spec_int_string;
use crate::decimal::spec_padded_string;
use crate::decimal::spec_trim_zeros;
use crate::duration::div_towards_zero;
use crate::duration::rem_towards_zero;
use crate::duration::Duration;

verus! {

/// The whole-second count with the sign folded toward the fraction: a
/// negative duration with a nonzero fraction gives back the borrowed second.
pub open spec fn spec_effective_seconds(d: Duration) -> int {
    if d.spec_seconds() >= 0 || d.spec_nanos() == 0 {
        d.spec_seconds()
    } else {
        d.spec_seconds() + 1
    }
}

/// The fraction digits directed along the sign of the duration.
pub open spec fn spec_directed_nanos(d: Duration) -> int {
    if d.spec_seconds() >= 0 || d.spec_nanos() == 0 {
        d.spec_nanos()
    } else {
        NANOSECONDS_IN_SECOND - d.spec_nanos()
    }
}

/// The hours token, omitted when the hour count is zero.
pub open spec fn spec_hours_part(effective_seconds: int) -> Seq<char> {
    let hours = div_towards_zero(effective_seconds, SECONDS_IN_HOUR as int);
    if hours != 0 {
        spec_int_string(hours) + seq!['H']
    } else {
        Seq::empty()
    }
}

/// The minutes token, omitted when the minute count is zero.
pub open spec fn spec_minutes_part(effective_seconds: int) -> Seq<char> {
    let minutes = div_towards_zero(
        rem_towards_zero(effective_seconds, SECONDS_IN_HOUR as int),
        SECONDS_IN_MINUTE as int,
    );
    if minutes != 0 {
        spec_int_string(minutes) + seq!['M']
    } else {
        Seq::empty()
    }
}

/// The seconds token with its fraction, omitted only when both the
/// remaining seconds and the fraction are zero. When the remaining seconds
/// are zero but the duration is negative, the literal `-0` keeps the sign
/// attached to the seconds token.
pub open spec fn spec_seconds_part(
    effective_seconds: int,
    directed_nanos: int,
    negative: bool,
) -> Seq<char> {
    let remaining = rem_towards_zero(effective_seconds, SECONDS_IN_MINUTE as int);
    if remaining == 0 && directed_nanos == 0 {
        Seq::empty()
    } else {
        (if remaining == 0 && negative {
            seq!['-', '0']
        } else {
            spec_int_string(remaining)
        }) + (if directed_nanos != 0 {
            seq!['.'] + spec_trim_zeros(spec_padded_string(directed_nanos as nat, 9))
        } else {
            Seq::empty()
        }) + seq!['S']
    }
}

/// The full rendering of a duration.
pub open spec fn spec_display(d: Duration) -> Seq<char> {
    if d@ == 0 {
        "PT0S"@
    } else {
        "PT"@ + spec_hours_part(spec_effective_seconds(d)) + spec_minutes_part(
            spec_effective_seconds(d),
        ) + spec_seconds_part(
            spec_effective_seconds(d),
            spec_directed_nanos(d),
            d.spec_seconds() < 0,
        )
    }
}

impl Duration {
    /// A string representation of this duration using ISO-8601 seconds
    /// based representation, such as `PT8H6M12.345S`.
    #[verifier::rlimit(100)]
    pub fn to_iso_string(&self) -> (s: String)
        requires
            self.wf(),
        ensures
            s@ == spec_display(*self),
    {
        let ghost d = *self;
        let seconds = self.seconds();
        let nanos = self.nano();
        if seconds == 0 && nanos == 0 {
            return String::from_str("PT0S");
        }
        assert(d@ != 0);
        let mut s = String::from_str("PT");

        let (effective_seconds, directed_nanos): (i64, u32) = if seconds >= 0 || nanos == 0 {
            (seconds, nanos)
        } else {
            (seconds + 1, (NANOSECONDS_IN_SECOND as u32) - nanos)
        };
        let ghost es = spec_effective_seconds(d);
        let ghost dn = spec_directed_nanos(d);
        assert(effective_seconds == es && directed_nanos == dn);

        let hours: i64 = effective_seconds / SECONDS_IN_HOUR;
        assert(hours == div_towards_zero(es, SECONDS_IN_HOUR as int));
        if hours != 0 {
            let rendered = int_string(hours);
            s.append(rendered.as_str());
            s.append("H");
            proof {
                reveal_strlit("H");
                assert("H"@ =~= seq!['H']);
            }
        }
        assert(s@ =~= "PT"@ + spec_hours_part(es));

        let minutes: i64 = (effective_seconds % SECONDS_IN_HOUR) / SECONDS_IN_MINUTE;
        assert(minutes == div_towards_zero(
            rem_towards_zero(es, SECONDS_IN_HOUR as int),
            SECONDS_IN_MINUTE as int,
        ));
        if minutes != 0 {
            let rendered = int_string(minutes);
            s.append(rendered.as_str());
            s.append("M");
            proof {
                reveal_strlit("M");
                assert("M"@ =~= seq!['M']);
            }
        }
        assert(s@ =~= "PT"@ + spec_hours_part(es) + spec_minutes_part(es));

        let remaining_seconds: i64 = effective_seconds % SECONDS_IN_MINUTE;
        assert(remaining_seconds == rem_towards_zero(es, SECONDS_IN_MINUTE as int));
        let ghost before_seconds_token = s@;
        if remaining_seconds != 0 || directed_nanos != 0 {
            if remaining_seconds == 0 && seconds < 0 {
                s.append("-0");
                proof {
                    reveal_strlit("-0");
                    assert("-0"@ =~= seq!['-', '0']);
                }
            } else {
                let rendered = int_string(remaining_seconds);
                s.append(rendered.as_str());
            }

            if directed_nanos != 0 {
                s.append(".");
                proof {
                    reveal_strlit(".");
                    assert("."@ =~= seq!['.']);
                }
                let fraction = fraction_string(directed_nanos);
                s.append(fraction.as_str());
            }
            s.append("S");
            proof {
                reveal_strlit("S");
                assert("S"@ =~= seq!['S']);
            }
        }
        assert(s@ =~= before_seconds_token + spec_seconds_part(es, dn, d.spec_seconds() < 0));
        assert(s@ =~= spec_display(d));

        s
    }
}

} // verus!
