//! Instants in UTC.

use std::cmp::Ordering;
use vstd::prelude::*;

verus! {

/// An instant in UTC: whole seconds since 1970-01-01T00:00:00Z, and the nanoseconds
/// since the last whole second.
///
/// During a leap second the nanoseconds run on past 999,999,999 while the seconds
/// stay, so that instants order by seconds first and nanoseconds second.
#[derive(Clone, Copy, Debug, PartialEq, Eq, Ord, Structural)]
pub struct Timestamp {
    pub secs: i64,
    pub nanos: u32,
}

impl Timestamp {
    /// `self` is strictly earlier than `other`.
    pub open spec fn before(self, other: Timestamp) -> bool {
        self.secs < other.secs || (self.secs == other.secs && self.nanos < other.nanos)
    }

    /// `self` is not later than `other`.
    pub open spec fn not_after(self, other: Timestamp) -> bool {
        self.before(other) || self == other
    }

    /// How `self` stands to `other`: earlier, the same instant, or later.
    pub open spec fn compared(self, other: Timestamp) -> Option<Ordering> {
        if self.before(other) {
            Some(Ordering::Less)
        } else if other.before(self) {
            Some(Ordering::Greater)
        } else {
            Some(Ordering::Equal)
        }
    }

    /// The instant so many seconds and nanoseconds after the start of 1970.
    pub fn new(secs: i64, nanos: u32) -> (t: Timestamp)
        ensures
            t == (Timestamp { secs, nanos }),
    {
        Timestamp { secs, nanos }
    }

    /// Whether `self` is strictly earlier than `other`.
    pub fn is_before(&self, other: &Timestamp) -> (r: bool)
        ensures
            r == self.before(*other),
    {
        self.secs < other.secs || (self.secs == other.secs && self.nanos < other.nanos)
    }
}

impl PartialOrd for Timestamp {
    fn partial_cmp(&self, other: &Timestamp) -> (r: Option<Ordering>) {
        if self.is_before(other) {
            Some(Ordering::Less)
        } else if other.is_before(self) {
            Some(Ordering::Greater)
        } else {
            Some(Ordering::Equal)
        }
    }
}

impl vstd::std_specs::cmp::PartialOrdSpecImpl for Timestamp {
    open spec fn obeys_partial_cmp_spec() -> bool {
        true
    }

    open spec fn partial_cmp_spec(&self, other: &Timestamp) -> Option<Ordering> {
        self.compared(*other)
    }
}

/// Of two instants exactly one is earlier, or they are the same instant.
pub proof fn lemma_timestamp_order_total(a: Timestamp, b: Timestamp)
    ensures
        a.before(b) || b.before(a) || a == b,
        !(a.before(b) && b.before(a)),
        !a.before(a),
{
}

/// "Earlier than" is transitive.
pub proof fn lemma_timestamp_order_transitive(a: Timestamp, b: Timestamp, c: Timestamp)
    requires
        a.not_after(b),
        b.not_after(c),
    ensures
        a.not_after(c),
        a.before(b) || b.before(c) ==> a.before(c),
{
}

} // verus!
