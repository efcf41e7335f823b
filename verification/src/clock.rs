use vstd::prelude::*;

verus! {

/// The identity of a monotonic time source.
///
/// A clock is queried, never mutated, by the graph it serves; many elements
/// may reference the same clock.  Readings are nanosecond samples handed to
/// the pipeline by the context that drives it, and every method that takes a
/// sample requires it to be no earlier than the last one seen, which is what
/// monotonicity means at this boundary.
#[derive(Clone, Copy, PartialEq, Eq, Structural, Debug)]
pub struct Clock {
    pub id: u64,
}

/// Identity of the default system clock, the fallback of automatic selection.
pub const SYSTEM_CLOCK_ID: u64 = 0;

/// The reserved "time is unset" sentinel; a delay must never hold it.
pub const CLOCK_TIME_NONE: u64 = u64::MAX;

impl Clock {
    /// The default system clock.
    pub fn system() -> (r: Clock)
        ensures
            r.id == SYSTEM_CLOCK_ID,
    {
        Clock { id: SYSTEM_CLOCK_ID }
    }
}

} // verus!
