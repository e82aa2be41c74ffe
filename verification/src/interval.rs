//! Intervals of whole seconds, as `std::time::Duration` values.

use std::time::Duration;
use vstd::prelude::*;

verus! {

/// The duration that lasts `secs` whole seconds and no fraction of one.
pub uninterp spec fn whole_seconds(secs: u64) -> Duration;

/// `Duration::from_secs` builds a duration from a number of whole seconds.
/// It depends on that number alone, so its result is given the name
/// `whole_seconds`; nothing is claimed about the inside of the value.
pub assume_specification[ Duration::from_secs ](secs: u64) -> (d: Duration)
    ensures
        d == whole_seconds(secs),
;

} // verus!
