//! Timestamps: the sort key of every message log.

use vstd::prelude::*;

verus! {

/// A point in time: whole seconds since the Unix epoch, and the nanoseconds
/// that have passed within that second.
///
/// Timestamps are ordered by seconds first and nanoseconds second. No value is
/// invalid: a nanosecond count of a billion or more stands for a leap second
/// and still sorts inside its own second.
#[derive(Clone, Copy, Debug, PartialEq, Eq, Structural, Hash)]
pub struct Timestamp {
    pub secs: i64,
    pub nanos: u32,
}

impl Timestamp {
    /// The position of this timestamp on the time line, as one integer.
    /// Two timestamps compare as their keys do.
    pub open spec fn key(self) -> int {
        self.secs * 0x1_0000_0000 + self.nanos
    }

    pub fn new(secs: i64, nanos: u32) -> (t: Timestamp)
        ensures
            t == (Timestamp { secs, nanos }),
    {
        Timestamp { secs, nanos }
    }

    /// Whether `self` is strictly earlier than `other`.
    pub fn lt(&self, other: &Timestamp) -> (r: bool)
        ensures
            r == (self.key() < other.key()),
    {
        self.secs < other.secs || (self.secs == other.secs && self.nanos < other.nanos)
    }

    /// Whether `self` is no later than `other`.
    pub fn le(&self, other: &Timestamp) -> (r: bool)
        ensures
            r == (self.key() <= other.key()),
    {
        self.secs < other.secs || (self.secs == other.secs && self.nanos <= other.nanos)
    }
}

/// Distinct timestamps have distinct keys, so ordering by key loses nothing.
pub proof fn lemma_key_is_injective(a: Timestamp, b: Timestamp)
    ensures
        a.key() == b.key() <==> a == b,
{
}

/// Reads the wall clock with `chrono::Utc::now` and splits the answer into
/// `DateTime::timestamp` and `DateTime::timestamp_subsec_nanos`.
///
/// Nothing is claimed of the value: it is whatever the clock says. chrono
/// panics when the system clock is set before 1970.
#[verifier::external_body]
pub(crate) fn current_time() -> (now: Timestamp) {
    let now = chrono::Utc::now();
    Timestamp { secs: now.timestamp(), nanos: now.timestamp_subsec_nanos() }
}

} // verus!
