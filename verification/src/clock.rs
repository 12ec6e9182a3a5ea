//! The system clock.

use std::time::{SystemTime, UNIX_EPOCH};
use vstd::prelude::*;

verus! {

/// `SystemTime::now` of the standard library, as whole seconds since the
/// Unix epoch; `None` where the clock reads a time before the epoch. Nothing
/// is claimed of the value: two readings may differ in any way.
#[verifier::external_body]
pub(crate) fn unix_seconds() -> Option<u64> {
    SystemTime::now().duration_since(UNIX_EPOCH).ok().map(|elapsed| elapsed.as_secs())
}

/// The time that a clock reading stands for: the seconds it gives, and zero
/// where the clock could not be read.
pub open spec fn reading_or_zero(reading: Option<u64>) -> u64 {
    match reading {
        Some(seconds) => seconds,
        None => 0,
    }
}

/// The time that a clock reading stands for.
pub fn seconds_or_zero(reading: Option<u64>) -> (seconds: u64)
    ensures
        seconds == reading_or_zero(reading),
{
    match reading {
        Some(seconds) => seconds,
        None => 0,
    }
}

} // verus!
