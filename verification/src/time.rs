//! Instants on the UTC time line, ordered as the clock orders them.

use vstd::prelude::*;

verus! {

/// An instant: whole seconds since the Unix epoch and the nanoseconds into
/// that second. Instants are ordered by seconds first, then by nanoseconds.
#[derive(Clone, Copy, Debug, PartialEq, Eq, Structural)]
pub struct Timestamp {
    pub secs: i64,
    pub nanos: u32,
}

impl Timestamp {
    /// `self` lies strictly before `other`.
    pub open spec fn before(self, other: Timestamp) -> bool {
        self.secs < other.secs || (self.secs == other.secs && self.nanos < other.nanos)
    }

    /// `self` lies at or before `other`.
    pub open spec fn at_or_before(self, other: Timestamp) -> bool {
        self == other || self.before(other)
    }

    /// Instants are totally ordered: of two, one lies strictly before the
    /// other or they are the same, and never more than one of these.
    pub proof fn lemma_order_is_total(self, other: Timestamp)
        ensures
            self.before(other) || other.before(self) || self == other,
            !(self.before(other) && other.before(self)),
            !self.before(self),
            other.at_or_before(self) <==> !self.before(other),
    {
    }

    /// What lies before an instant lies before everything after it.
    pub proof fn lemma_order_is_transitive(self, middle: Timestamp, last: Timestamp)
        requires
            self.before(middle),
            middle.before(last),
        ensures
            self.before(last),
    {
    }

    pub fn new(secs: i64, nanos: u32) -> (t: Timestamp)
        ensures
            t.secs == secs,
            t.nanos == nanos,
    {
        Timestamp { secs, nanos }
    }

    /// Decides whether `self` lies strictly before `other`.
    pub fn is_before(&self, other: &Timestamp) -> (b: bool)
        ensures
            b == self.before(*other),
    {
        self.secs < other.secs || (self.secs == other.secs && self.nanos < other.nanos)
    }
}

/// Reads the system clock through `chrono::Utc::now` and keeps the instant's
/// `timestamp()` and `timestamp_subsec_nanos()`. Nothing is claimed of the
/// value: it is whatever the clock says at the moment of the call. `chrono`
/// gives up on a clock that is set before the Unix epoch.
#[verifier::external_body]
pub(crate) fn utc_now() -> (t: Timestamp) {
    let now = chrono::Utc::now();
    Timestamp { secs: now.timestamp(), nanos: now.timestamp_subsec_nanos() }
}

} // verus!
