//! Fluent construction of the time-based combinators on streams.

use vstd::prelude::*;

use crate::stream::Delay;
use crate::stream::DelayModel;
use crate::stream::Park;
use crate::stream::ParkState;
use crate::time::Duration;
use crate::time::Instant;

verus! {

/// Extends multi-value producers with time-based operations.
///
/// Every type gets these methods: the receiver is stored as the wrapped
/// stream of the combinator.
pub trait StreamExt: Sized {
    /// Wraps `self` behind a delay window of `dur` ticks from `now`.
    fn delay(self, dur: Duration, now: Instant) -> (d: Delay<Self>)
        requires
            now@ + dur@ <= u64::MAX,
        ensures
            d.inner() == self,
            d@ == (DelayModel { deadline: now@ + dur@, streaming: false }),
    {
        Delay::new(self, dur, now)
    }

    /// Wraps `self` so that emission is paused and resumed by control
    /// signals received on `receiver`; a fresh wrapper starts paused.
    fn park<R>(self, receiver: R) -> (p: Park<Self, R>)
        ensures
            p.inner() == self,
            p.receiver() == receiver,
            p@ == ParkState::Suspended,
    {
        Park::new(self, receiver)
    }
}

impl<T> StreamExt for T {

}

} // verus!
