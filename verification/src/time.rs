//! Durations as the library reasons about them: by their length in nanoseconds.

use std::time::Duration;
use vstd::prelude::*;

verus! {

/// The length of `d` in nanoseconds, as `Duration::as_nanos` reports it.
pub uninterp spec fn duration_nanos(d: Duration) -> nat;

/// Number of nanoseconds in a second.
pub open spec fn nanos_per_sec() -> nat {
    1_000_000_000
}

/// `Duration::from_secs`: a duration of `secs` whole seconds.
#[verifier::external_body]
pub(crate) fn duration_from_secs(secs: u64) -> (d: Duration)
    ensures
        duration_nanos(d) == secs * nanos_per_sec(),
{
    Duration::from_secs(secs)
}

/// `Duration::saturating_sub`: `a - b`, or zero where `b` is the longer one.
#[verifier::external_body]
pub(crate) fn duration_saturating_sub(a: Duration, b: Duration) -> (d: Duration)
    ensures
        duration_nanos(d) == (if duration_nanos(a) >= duration_nanos(b) {
            (duration_nanos(a) - duration_nanos(b)) as nat
        } else {
            0nat
        }),
{
    a.saturating_sub(b)
}

} // verus!
