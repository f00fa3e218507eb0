//! Fluent construction of the time-based combinators on futures.

use vstd::prelude::*;

use crate::future::Delay;
use crate::future::Timeout;
use crate::task::Sleep;
use crate::task::SleepUntil;
use crate::task::SleepUntilModel;
use crate::task::armed_sleep;
use crate::task::sleep;
use crate::task::sleep_until;
use crate::time::Duration;
use crate::time::Instant;

verus! {

/// Extends single-value producers with time-based operations.
///
/// Every type gets these methods: the receiver is stored as the wrapped
/// producer of the combinator, and the current instant arms the deadline.
pub trait FutureExt: Sized {
    /// Wraps `self` in a race against a deadline `dur` ticks after `now`.
    fn timeout(self, dur: Duration, now: Instant) -> (t: Timeout<Self, Sleep>)
        requires
            now@ + dur@ <= u64::MAX,
        ensures
            t.inner() == self,
            t.deadline_producer()@ == armed_sleep(dur@, now@),
            !t.is_completed(),
            t.can_poll(),
    {
        Timeout::new(self, sleep(dur, now))
    }

    /// Wraps `self` behind a delay window that ends at the instant `deadline`.
    fn delay(self, deadline: Instant) -> (d: Delay<Self, SleepUntil>)
        ensures
            d.inner() == self,
            d.deadline_producer()@ == (SleepUntilModel { deadline: deadline@, completed: false }),
            !d.has_fired(),
            d.can_poll(),
    {
        Delay::new(self, sleep_until(deadline))
    }
}

impl<T> FutureExt for T {

}

} // verus!
