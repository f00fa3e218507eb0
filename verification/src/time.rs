//! Points in time and spans of time, measured in abstract ticks.
//!
//! The clock is monotonic: an [`Instant`] is a tick count since an arbitrary
//! origin, and a [`Duration`] is a non-negative tick span.  Nothing in this
//! crate fixes what a tick is; the host that drives the machines chooses the
//! unit and supplies the current instant on every poll.

use vstd::prelude::*;

verus! {

/// A non-negative span of time, in ticks.
#[derive(Clone, Copy, Debug, PartialEq, Eq, Structural)]
pub struct Duration {
    ticks: u64,
}

impl View for Duration {
    type V = nat;

    closed spec fn view(&self) -> nat {
        self.ticks as nat
    }
}

impl Duration {
    /// Builds the span of `ticks` ticks.
    pub fn from_ticks(ticks: u64) -> (d: Duration)
        ensures
            d@ == ticks,
    {
        Duration { ticks }
    }

    /// The span as a tick count.
    pub fn as_ticks(&self) -> (t: u64)
        ensures
            t == self@,
    {
        self.ticks
    }
}

/// A monotonic point in time, as a tick count since an arbitrary origin.
#[derive(Clone, Copy, Debug, PartialEq, Eq, Structural)]
pub struct Instant {
    ticks: u64,
}

impl View for Instant {
    type V = nat;

    closed spec fn view(&self) -> nat {
        self.ticks as nat
    }
}

impl Instant {
    /// Builds the instant `ticks` ticks after the origin.
    pub fn from_ticks(ticks: u64) -> (i: Instant)
        ensures
            i@ == ticks,
    {
        Instant { ticks }
    }

    /// The instant as a tick count since the origin.
    pub fn as_ticks(&self) -> (t: u64)
        ensures
            t == self@,
    {
        self.ticks
    }

    /// The instant `dur` ticks after `self`, or `None` when that point does
    /// not fit in the tick counter.
    pub fn checked_add(&self, dur: Duration) -> (r: Option<Instant>)
        ensures
            self@ + dur@ <= u64::MAX ==> (r matches Some(i) && i@ == self@ + dur@),
            self@ + dur@ > u64::MAX ==> r is None,
    {
        match self.ticks.checked_add(dur.ticks) {
            Some(t) => Some(Instant { ticks: t }),
            None => None,
        }
    }
}

} // verus!
