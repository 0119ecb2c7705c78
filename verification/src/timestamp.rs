//! Points in time, as the payloads carry them: a calendar date and time of
//! day without a zone.

use vstd::prelude::*;

verus! {

/// A point in time: whole seconds since 1970-01-01T00:00:00, and the
/// nanoseconds past that second. Two timestamps are ordered by their
/// seconds, then by their nanoseconds.
#[derive(Clone, Copy, Debug, PartialEq, Eq, Structural)]
pub struct Timestamp {
    pub secs: i64,
    pub nanos: u32,
}

impl Timestamp {
    /// Whether `self` is strictly earlier than `other`.
    pub open spec fn before(self, other: Timestamp) -> bool {
        self.secs < other.secs || (self.secs == other.secs && self.nanos < other.nanos)
    }

    /// Whether `self` is no later than `other`.
    pub open spec fn not_after(self, other: Timestamp) -> bool {
        !other.before(self)
    }

    /// Whether `self` is strictly earlier than `other`.
    pub fn is_before(&self, other: &Timestamp) -> (earlier: bool)
        ensures
            earlier == self.before(*other),
    {
        self.secs < other.secs || (self.secs == other.secs && self.nanos < other.nanos)
    }

    /// Whether `self` is no later than `other`.
    pub fn is_not_after(&self, other: &Timestamp) -> (within: bool)
        ensures
            within == self.not_after(*other),
    {
        !other.is_before(self)
    }
}

/// Earlier-than is a strict total order of timestamps: of two that differ
/// exactly one is earlier, none is earlier than itself, and what is
/// earlier than something earlier is earlier.
pub proof fn law_before_is_a_strict_order(a: Timestamp, b: Timestamp, c: Timestamp)
    ensures
        !(a.before(b) && b.before(a)),
        a.before(b) || b.before(a) || a == b,
        !a.before(a),
        a.before(b) && b.before(c) ==> a.before(c),
{
}

} // verus!
