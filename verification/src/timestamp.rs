//! Modification times and their order.

use std::cmp::Ordering;
use vstd::prelude::*;
use vstd::std_specs::cmp::PartialOrdSpec;

verus! {

/// The moment a file was last modified: whole seconds since the Unix epoch and
/// the nanoseconds that follow them. Seconds are compared first, nanoseconds
/// break ties, so the order is total whatever the two fields hold.
#[derive(Clone, Copy, Debug, PartialEq, Eq, Structural, Hash)]
pub struct FileTimestamp {
    pub seconds: i64,
    pub nanos: u32,
}

impl FileTimestamp {
    /// `self` is not later than `other`.
    pub open spec fn not_after(self, other: FileTimestamp) -> bool {
        self.seconds < other.seconds || (self.seconds == other.seconds && self.nanos
            <= other.nanos)
    }

    /// The later of two timestamps.
    pub open spec fn later_of(self, other: FileTimestamp) -> FileTimestamp {
        if self.not_after(other) {
            other
        } else {
            self
        }
    }

    /// The timestamp with the given seconds and nanoseconds.
    pub fn new(seconds: i64, nanos: u32) -> (t: FileTimestamp)
        ensures
            t.seconds == seconds,
            t.nanos == nanos,
    {
        FileTimestamp { seconds, nanos }
    }

    /// The whole seconds since the Unix epoch.
    pub fn seconds(&self) -> (s: i64)
        ensures
            s == self.seconds,
    {
        self.seconds
    }

    /// The nanoseconds that follow the whole seconds.
    pub fn nanoseconds(&self) -> (n: u32)
        ensures
            n == self.nanos,
    {
        self.nanos
    }

    /// Whether `self` is not later than `other`.
    pub fn is_at_most(&self, other: &FileTimestamp) -> (b: bool)
        ensures
            b == self.not_after(*other),
    {
        self.seconds < other.seconds || (self.seconds == other.seconds && self.nanos
            <= other.nanos)
    }

    /// The later of `self` and `other`; `other` when they are equal.
    pub fn max(self, other: FileTimestamp) -> (m: FileTimestamp)
        ensures
            m == self.later_of(other),
    {
        if self.is_at_most(&other) {
            other
        } else {
            self
        }
    }
}

impl PartialOrd for FileTimestamp {
    /// Seconds decide; nanoseconds decide between equal seconds.
    fn partial_cmp(&self, other: &FileTimestamp) -> (r: Option<Ordering>) {
        if self.seconds < other.seconds {
            Some(Ordering::Less)
        } else if self.seconds > other.seconds {
            Some(Ordering::Greater)
        } else if self.nanos < other.nanos {
            Some(Ordering::Less)
        } else if self.nanos > other.nanos {
            Some(Ordering::Greater)
        } else {
            Some(Ordering::Equal)
        }
    }
}

impl vstd::std_specs::cmp::PartialOrdSpecImpl for FileTimestamp {
    open spec fn obeys_partial_cmp_spec() -> bool {
        true
    }

    open spec fn partial_cmp_spec(&self, other: &FileTimestamp) -> Option<Ordering> {
        if self.seconds < other.seconds {
            Some(Ordering::Less)
        } else if self.seconds > other.seconds {
            Some(Ordering::Greater)
        } else if self.nanos < other.nanos {
            Some(Ordering::Less)
        } else if self.nanos > other.nanos {
            Some(Ordering::Greater)
        } else {
            Some(Ordering::Equal)
        }
    }
}

/// The comparison operators go by the same order as `not_after`.
pub proof fn lemma_operators_agree_with_order(a: FileTimestamp, b: FileTimestamp)
    ensures
        a.not_after(b) <==> a.partial_cmp_spec(&b) != Some(Ordering::Greater),
        a == b <==> a.partial_cmp_spec(&b) == Some(Ordering::Equal),
{
}

/// Every timestamp is at most itself.
pub proof fn lemma_order_reflexive(a: FileTimestamp)
    ensures
        a.not_after(a),
{
}

/// Two timestamps that are each at most the other are the same timestamp.
pub proof fn lemma_order_antisymmetric(a: FileTimestamp, b: FileTimestamp)
    requires
        a.not_after(b),
        b.not_after(a),
    ensures
        a == b,
{
}

/// The order passes along a chain.
pub proof fn lemma_order_transitive(a: FileTimestamp, b: FileTimestamp, c: FileTimestamp)
    requires
        a.not_after(b),
        b.not_after(c),
    ensures
        a.not_after(c),
{
}

/// Any two timestamps are comparable.
pub proof fn lemma_order_total(a: FileTimestamp, b: FileTimestamp)
    ensures
        a.not_after(b) || b.not_after(a),
{
}

/// The later of two timestamps is one of them, is at least both, and does not
/// depend on the order in which they are given.
pub proof fn lemma_later_of_is_maximum(a: FileTimestamp, b: FileTimestamp)
    ensures
        a.later_of(b) == a || a.later_of(b) == b,
        a.not_after(a.later_of(b)),
        b.not_after(a.later_of(b)),
        a.later_of(b) == b.later_of(a),
{
}

} // verus!
