//! What the library knows of `std::time::Duration`: its length in
//! nanoseconds, and the constructors and operations the retry policy uses.

use std::time::Duration;
use vstd::prelude::*;

verus! {

/// Length of a `Duration` in nanoseconds: the value `Duration::as_nanos`
/// returns. Every other fact about durations below is stated over it.
pub uninterp spec fn duration_nanos(d: Duration) -> nat;

/// Nanoseconds in one second.
pub open spec fn nanos_per_sec() -> nat {
    1_000_000_000
}

/// Nanoseconds in one millisecond.
pub open spec fn nanos_per_milli() -> nat {
    1_000_000
}

/// Length of `Duration::MAX` (`u64::MAX` seconds plus 999_999_999 ns).
pub open spec fn max_duration_nanos() -> nat {
    18_446_744_073_709_551_615 * 1_000_000_000 + 999_999_999
}

/// `Duration::as_nanos`: the total length in nanoseconds. Every duration is
/// at most `Duration::MAX` long.
pub assume_specification[ Duration::as_nanos ](d: &Duration) -> (n: u128)
    ensures
        n == duration_nanos(*d),
        n <= max_duration_nanos(),
;

/// `Duration::from_secs`: exactly `secs` seconds.
pub assume_specification[ Duration::from_secs ](secs: u64) -> (d: Duration)
    ensures
        duration_nanos(d) == secs * nanos_per_sec(),
;

/// `Duration::from_millis`: exactly `millis` milliseconds.
pub assume_specification[ Duration::from_millis ](millis: u64) -> (d: Duration)
    ensures
        duration_nanos(d) == millis * nanos_per_milli(),
;

/// `Duration::from_nanos`: exactly `nanos` nanoseconds.
pub assume_specification[ Duration::from_nanos ](nanos: u64) -> (d: Duration)
    ensures
        duration_nanos(d) == nanos,
;

/// `Duration::saturating_mul`: the product, or `Duration::MAX` when the
/// product does not fit.
pub assume_specification[ Duration::saturating_mul ](d: Duration, rhs: u32) -> (r: Duration)
    ensures
        duration_nanos(r) == (if duration_nanos(d) * rhs <= max_duration_nanos() {
            duration_nanos(d) * rhs
        } else {
            max_duration_nanos() as int
        }),
;

/// `Duration` is `Copy`; its `Clone` hands back the same duration.
pub assume_specification[ <Duration as Clone>::clone ](d: &Duration) -> (r: Duration)
    ensures
        r == *d,
;

/// What `format!("{:?}", d)` renders for a duration of the given length in
/// nanoseconds (std's `Debug` for `Duration`, e.g. `60s` or `1.5ms`).
pub uninterp spec fn duration_debug_text(nanos: nat) -> Seq<char>;

/// Renders a duration with std's `Debug` formatting.
#[verifier::external_body]
pub(crate) fn duration_debug(d: Duration) -> (s: String)
    ensures
        s@ == duration_debug_text(duration_nanos(d)),
{
    format!("{d:?}")
}

} // verus!
