//! Points in time.

use vstd::prelude::*;

verus! {

/// A point in time in UTC: the whole seconds since the Unix epoch and the
/// nanoseconds past that second.
///
/// A leap second is written on the second before it, with a billion or more
/// nanoseconds, so the order of two timestamps is the order of their seconds
/// and, where these agree, of their nanoseconds.
#[derive(Debug, Clone, Copy, PartialEq, Eq, Structural)]
pub struct Timestamp {
    pub secs: i64,
    pub nanos: u32,
}

impl Timestamp {
    /// Whether `self` is strictly earlier than `other`.
    pub open spec fn before(self, other: Timestamp) -> bool {
        self.secs < other.secs || (self.secs == other.secs && self.nanos < other.nanos)
    }

    /// The timestamp `nanos` nanoseconds past the second `secs`.
    pub fn new(secs: i64, nanos: u32) -> (t: Timestamp)
        ensures
            t.secs == secs,
            t.nanos == nanos,
    {
        Timestamp { secs, nanos }
    }

    /// Whether `self` is strictly earlier than `other`.
    pub fn is_before(&self, other: &Timestamp) -> (r: bool)
        ensures
            r == self.before(*other),
    {
        self.secs < other.secs || (self.secs == other.secs && self.nanos < other.nanos)
    }

    /// Reads the system clock through `chrono::Utc::now` and takes the result
    /// apart into seconds and nanoseconds. Nothing is claimed of the value:
    /// it changes from one call to the next. `chrono` panics where the clock
    /// stands before 1970.
    #[verifier::external_body]
    pub(crate) fn now() -> Timestamp {
        let t = chrono::Utc::now();
        Timestamp { secs: t.timestamp(), nanos: t.timestamp_subsec_nanos() }
    }
}

} // verus!
