use vstd::prelude::*;

verus! {

pub const NANOSECONDS_IN_MILLISECOND: i64 = 1_000_000;
pub const NANOSECONDS_IN_SECOND: i64 = 1_000_000_000;
pub const NANOSECONDS_IN_MINUTE: i64 = SECONDS_IN_MINUTE * NANOSECONDS_IN_SECOND;
pub const NANOSECONDS_IN_HOUR: i64 = MINUTES_IN_HOUR * NANOSECONDS_IN_MINUTE;
pub const NANOSECONDS_IN_DAY: i64 = HOURS_IN_DAY * NANOSECONDS_IN_HOUR;
pub const MILLISECONDS_IN_SECOND: i64 = 1_000;
pub const SECONDS_IN_MINUTE: i64 = 60;
pub const SECONDS_IN_HOUR: i64 = SECONDS_IN_MINUTE * MINUTES_IN_HOUR;
pub const SECONDS_IN_DAY: i64 = SECONDS_IN_HOUR * HOURS_IN_DAY;
pub const MINUTES_IN_HOUR: i64 = 60;
pub const HOURS_IN_DAY: i64 = 24;

} // verus!
