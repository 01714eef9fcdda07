//! Spans of time. `std::time::Duration` is opaque to the verifier; this
//! module states what the crate takes on trust of it.

use vstd::prelude::*;
use std::time::Duration;

verus! {

/// The duration of `secs` whole seconds, as `Duration::from_secs` makes it.
pub uninterp spec fn duration_from_secs(secs: u64) -> Duration;

/// `Duration::from_secs` returns the duration of that many whole seconds,
/// the same one for the same count. It accepts every count.
pub assume_specification[ Duration::from_secs ](secs: u64) -> (d: Duration)
    ensures
        d == duration_from_secs(secs),
;

/// `Duration::clone` copies the duration: the type is `Copy`, and the copy
/// equals the original.
pub assume_specification[ <Duration as Clone>::clone ](d: &Duration) -> (r: Duration)
    ensures
        r == *d,
;

} // verus!
