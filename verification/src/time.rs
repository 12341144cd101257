//! What a `Duration` holds, as far as this crate reads it.

use std::time::Duration;
use vstd::prelude::*;

verus! {

/// The whole seconds of a duration: what `Duration::as_secs` returns.
pub uninterp spec fn duration_secs(dur: Duration) -> u64;

/// The part of a duration below one second, in nanoseconds: what
/// `Duration::subsec_nanos` returns.
pub uninterp spec fn duration_subsec_nanos(dur: Duration) -> u32;

/// `Duration::as_secs` is a function of the duration alone. Nothing more is
/// claimed of it than that it has a value.
pub assume_specification[ Duration::as_secs ](dur: &Duration) -> (secs: u64)
    ensures
        secs == duration_secs(*dur),
;

/// `Duration::subsec_nanos` is a function of the duration alone, and the
/// standard library documents that its value is below one billion.
pub assume_specification[ Duration::subsec_nanos ](dur: &Duration) -> (nanos: u32)
    ensures
        nanos == duration_subsec_nanos(*dur),
        nanos < 1_000_000_000,
;

/// Nanoseconds in one second.
pub const NANOS_PER_SEC: i64 = 1_000_000_000;

/// Nanoseconds in one millisecond.
pub const NANOS_PER_MILLI: u32 = 1_000_000;

/// The length in nanoseconds of so many seconds and nanoseconds.
pub open spec fn nanos_of(secs: u64, nanos: u32) -> int {
    secs * NANOS_PER_SEC + nanos
}

/// The milliseconds that cover so many seconds and nanoseconds: the least
/// number of whole milliseconds that is no shorter.
pub open spec fn millis_covering(secs: u64, nanos: u32) -> int {
    secs * 1000 + (nanos + NANOS_PER_MILLI - 1) / (NANOS_PER_MILLI as int)
}

} // verus!
