//! Points in time, as the records of the remote service carry them.

use vstd::prelude::*;

verus! {

/// An instant on the UTC time line: whole seconds since the Unix epoch and the
/// nanoseconds past that second.
#[derive(Clone, Copy, Debug, PartialEq, Eq, Structural)]
pub struct Timestamp {
    pub seconds: i64,
    pub nanoseconds: u32,
}

impl Timestamp {
    /// Whether `self` is `other` or an earlier instant: seconds decide, and
    /// nanoseconds break a tie.
    pub open spec fn not_after(self, other: Timestamp) -> bool {
        self.seconds < other.seconds || (self.seconds == other.seconds && self.nanoseconds
            <= other.nanoseconds)
    }

    /// The instant `nanoseconds` past the second `seconds`.
    pub fn new(seconds: i64, nanoseconds: u32) -> (t: Timestamp)
        ensures
            t.seconds == seconds,
            t.nanoseconds == nanoseconds,
    {
        Timestamp { seconds, nanoseconds }
    }

    /// Exec counterpart of [`Timestamp::not_after`].
    pub fn is_not_after(&self, other: &Timestamp) -> (r: bool)
        ensures
            r == self.not_after(*other),
    {
        self.seconds < other.seconds || (self.seconds == other.seconds && self.nanoseconds
            <= other.nanoseconds)
    }
}

} // verus!
