//! Points in time as integers.
//!
//! A wall-clock time is the number of nanoseconds since the start of 1970 in
//! UTC; a monotonic time is a number of nanoseconds since a fixed start.

use vstd::prelude::*;

verus! {

/// Nanoseconds in a second.
pub const NANOS_PER_SECOND: i128 = 1_000_000_000;

/// The earliest wall-clock time: the start of the year -262143.
pub const MIN_TIME: i128 = -8_334_601_228_800_000_000_000;

/// The latest wall-clock time: the last nanosecond of the year 262142.
pub const MAX_TIME: i128 = 8_210_266_876_799_999_999_999;

/// The longest span, in whole seconds, that can be added to a wall-clock time.
pub const MAX_SPAN_SECS: u64 = 9_223_372_036_854_775;

/// Whether a wall-clock time is one that the calendar can represent.
pub open spec fn valid_time(time: int) -> bool {
    MIN_TIME <= time <= MAX_TIME
}

/// The span of a number of seconds; a number that no span can hold counts as none.
pub open spec fn span(secs: u64) -> int {
    if secs <= MAX_SPAN_SECS {
        secs * NANOS_PER_SECOND
    } else {
        0
    }
}

/// The span of a number of seconds; a number that no span can hold counts as none.
pub fn span_nanos(secs: u64) -> (r: i128)
    ensures
        r == span(secs),
        0 <= r <= MAX_SPAN_SECS * NANOS_PER_SECOND,
{
    if secs <= MAX_SPAN_SECS {
        secs as i128 * NANOS_PER_SECOND
    } else {
        0
    }
}

/// The number of nanoseconds in a number of seconds, for monotonic times.
pub fn monotonic_nanos(secs: u64) -> (r: u128)
    ensures
        r == secs * 1_000_000_000,
{
    secs as u128 * 1_000_000_000
}

} // verus!
