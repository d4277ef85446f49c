//! What the library knows of `std::time::Duration`, which it carries as the
//! sampling interval without looking inside.

use std::time::Duration;
use vstd::prelude::*;

verus! {

/// The whole milliseconds in a duration: what `Duration::as_millis` returns.
pub uninterp spec fn duration_millis(duration: Duration) -> u128;

/// `Duration::from_secs` builds the duration of that many whole seconds,
/// which holds a thousand milliseconds for each.
pub assume_specification[ Duration::from_secs ](secs: u64) -> (duration: Duration)
    ensures
        duration_millis(duration) == secs * 1000,
;

/// `Duration::as_millis` returns the whole milliseconds in the duration.
pub assume_specification[ Duration::as_millis ](duration: &Duration) -> (millis: u128)
    ensures
        millis == duration_millis(*duration),
;

} // verus!
