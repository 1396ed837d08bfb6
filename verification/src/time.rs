//! Plain-value time primitives: an instant on a global timeline and a span
//! between instants, both counted in whole seconds. The rest of the library
//! only ever subtracts instants and compares the result against a span, so
//! whole seconds are all the resolution it needs.

use vstd::prelude::*;

verus! {

/// Number of seconds in one day.
pub const SECONDS_PER_DAY: i64 = 86400;

/// A span of time, counted in whole seconds. May be negative.
#[derive(Clone, Copy, PartialEq, Eq, Structural, Debug)]
pub struct Duration {
    pub seconds: i64,
}

impl Duration {
    /// The span of `days` whole days.
    ///
    /// The bound keeps `days * 86400` within `i64`; a day count outside it
    /// does not denote a representable span.
    pub fn from_days(days: i64) -> (d: Duration)
        requires
            -106751991167300 <= days <= 106751991167300,
        ensures
            d.seconds == days * 86400,
    {
        Duration { seconds: days * SECONDS_PER_DAY }
    }

    /// How many whole days a nonnegative span covers.
    pub fn num_days(&self) -> (r: i64)
        requires
            self.seconds >= 0,
        ensures
            r == self.seconds / 86400,
    {
        ((self.seconds as u64) / (SECONDS_PER_DAY as u64)) as i64
    }
}

/// A point on the timeline, counted in whole seconds from a fixed origin.
#[derive(Clone, Copy, PartialEq, Eq, Structural, Debug)]
pub struct Instant {
    pub seconds: i64,
}

/// The signed number of seconds from `from` to `to`.
pub open spec fn spec_elapsed(from: Instant, to: Instant) -> int {
    to.seconds - from.seconds
}

impl Instant {
    /// The signed number of seconds from `earlier` to `self`.
    pub fn seconds_since(&self, earlier: Instant) -> (r: i128)
        ensures
            r == spec_elapsed(earlier, *self),
    {
        (self.seconds as i128) - (earlier.seconds as i128)
    }
}

} // verus!
