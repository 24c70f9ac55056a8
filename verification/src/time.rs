//! Durations as numbers of nanoseconds.

use std::time::Duration;
use vstd::prelude::*;

verus! {

/// The number of nanoseconds in a duration, as `Duration::as_nanos` counts them.
pub uninterp spec fn duration_nanos(duration: Duration) -> u128;

/// `Duration::as_nanos`: the total number of nanoseconds in the duration, which
/// is a function of the duration alone and is named `duration_nanos` here.
pub assume_specification[ Duration::as_nanos ](duration: &Duration) -> (nanos: u128)
    ensures
        nanos == duration_nanos(*duration),
;

} // verus!
