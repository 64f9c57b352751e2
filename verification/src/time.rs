//! Points in time, as whole seconds since the Unix epoch and the nanoseconds
//! past that second.
//!
//! Two points are ordered by their seconds first and by their nanoseconds
//! second, which is the order chrono gives to the `DateTime<Utc>` values they
//! are read from. Within a leap second chrono counts the nanoseconds on past
//! a thousand million instead of starting a new second, and so does a
//! `Timestamp` read from it.

use vstd::prelude::*;

verus! {

/// A point in time in UTC.
#[derive(Clone, Copy, Debug, PartialEq, Eq, Structural)]
pub struct Timestamp {
    pub secs: i64,
    pub nanos: u32,
}

impl Timestamp {
    /// Whether `self` lies strictly later than `other`.
    pub open spec fn is_after(self, other: Timestamp) -> bool {
        self.secs > other.secs || (self.secs == other.secs && self.nanos > other.nanos)
    }

    /// The point `nanos` nanoseconds past second `secs` of the Unix epoch.
    pub fn new(secs: i64, nanos: u32) -> (r: Timestamp)
        ensures
            r.secs == secs,
            r.nanos == nanos,
    {
        Timestamp { secs, nanos }
    }

    /// The whole seconds since the Unix epoch.
    pub fn secs(&self) -> (r: i64)
        ensures
            r == self.secs,
    {
        self.secs
    }

    /// The nanoseconds past the whole second.
    pub fn nanos(&self) -> (r: u32)
        ensures
            r == self.nanos,
    {
        self.nanos
    }

    /// Whether `self` lies strictly later than `other`.
    pub fn later_than(&self, other: &Timestamp) -> (r: bool)
        ensures
            r == self.is_after(*other),
    {
        self.secs > other.secs || (self.secs == other.secs && self.nanos > other.nanos)
    }
}

/// Reads the wall clock through `chrono::Utc::now` and hands the instant back
/// as its Unix seconds (`DateTime::timestamp`) and the nanoseconds past them
/// (`DateTime::timestamp_subsec_nanos`). Nothing is claimed of the instant: two
/// readings may differ in either direction. chrono stops the program if the
/// system clock stands before the Unix epoch.
#[verifier::external_body]
pub(crate) fn current_time() -> (now: Timestamp) {
    let now = chrono::Utc::now();
    Timestamp { secs: now.timestamp(), nanos: now.timestamp_subsec_nanos() }
}

/// No point in time lies after itself.
pub proof fn lemma_not_after_itself(t: Timestamp)
    ensures
        !t.is_after(t),
{
}

/// Of two distinct points in time exactly one lies after the other.
pub proof fn lemma_after_is_total(a: Timestamp, b: Timestamp)
    ensures
        a == b || a.is_after(b) || b.is_after(a),
        !(a.is_after(b) && b.is_after(a)),
{
}

} // verus!
