//! Racing a single-value producer against a deadline.

use vstd::prelude::*;

use crate::future::FuturePoll;
use crate::task::Sleep;
use crate::task::fires_at;
use crate::time::Instant;

verus! {

/// The deadline fired before the wrapped producer finished.
///
/// This is a recoverable, value-level outcome, distinct from anything the
/// wrapped producer itself returns.  It carries no payload.
#[derive(Clone, Copy, Debug, PartialEq, Eq, Structural)]
pub struct TimeoutError;

/// Awaits a single-value producer, but no longer than until a deadline.
///
/// On every poll the wrapped producer is consulted first, so a value that
/// becomes ready in the same turn as the deadline always beats the timeout.
/// Exactly one of the two sides determines the outcome; afterwards neither
/// side is ever polled again.
#[derive(Debug)]
pub struct Timeout<F, D> {
    future: F,
    deadline: D,
    completed: bool,
}

impl<F, D> Timeout<F, D> {
    /// The wrapped producer, as the machine holds it.
    pub closed spec fn inner(self) -> F {
        self.future
    }

    /// The deadline producer, as the machine holds it.
    pub closed spec fn deadline_producer(self) -> D {
        self.deadline
    }

    /// Whether one of the two sides has already determined the outcome.
    pub closed spec fn is_completed(self) -> bool {
        self.completed
    }

    /// Wraps `future`, to be raced against `deadline`.
    pub fn new(future: F, deadline: D) -> (t: Timeout<F, D>)
        ensures
            t.inner() == future,
            t.deadline_producer() == deadline,
            !t.is_completed(),
    {
        Timeout { future, deadline, completed: false }
    }

    /// Whether one of the two sides has already determined the outcome.
    pub fn completed(&self) -> (b: bool)
        ensures
            b == self.is_completed(),
    {
        self.completed
    }

    /// Exclusive access to the wrapped producer, so that the host can poll
    /// it; the rest of the machine is untouched.
    pub fn future_mut(&mut self) -> (r: &mut F)
        ensures
            *r == old(self).inner(),
            final(self).inner() == *final(r),
            final(self).deadline_producer() == old(self).deadline_producer(),
            final(self).is_completed() == old(self).is_completed(),
    {
        &mut self.future
    }
}

impl<F> Timeout<F, Sleep> {
    /// Whether the race is still undecided, so that another poll is allowed.
    pub open spec fn can_poll(self) -> bool {
        !self.is_completed() && !self.deadline_producer()@.completed
    }

    /// The instant at which the deadline expires.
    pub fn deadline(&self) -> (d: Instant)
        ensures
            d@ == self.deadline_producer()@.deadline,
    {
        self.deadline.deadline()
    }

    /// Decides one poll of the race, at instant `now`, given the outcome
    /// `inner` of polling the wrapped producer first.
    ///
    /// If the wrapped producer is ready its value wins, also when the
    /// deadline expires in the same turn: the deadline is then not even
    /// consulted.  Otherwise the deadline decides: expired means the timeout
    /// outcome, not yet expired means no progress.  Once a result has been
    /// produced the race is completed and must not be polled again.
    pub fn poll<T>(&mut self, now: Instant, inner: FuturePoll<T>) -> (r: FuturePoll<
        Result<T, TimeoutError>,
    >)
        requires
            old(self).can_poll(),
        ensures
            final(self).inner() == old(self).inner(),
            inner matches FuturePoll::Ready(v) ==> r == FuturePoll::Ready(
                Result::<T, TimeoutError>::Ok(v),
            ),
            inner is Ready ==> final(self).deadline_producer() == old(self).deadline_producer(),
            inner is Pending && fires_at(old(self).deadline_producer()@, now@) ==> r
                == FuturePoll::Ready(Result::<T, TimeoutError>::Err(TimeoutError)),
            inner is Pending && !fires_at(old(self).deadline_producer()@, now@) ==> r
                == FuturePoll::<Result<T, TimeoutError>>::Pending,
            final(self).is_completed() == (r is Ready),
            r is Pending ==> *final(self) == *old(self),
    {
        match inner {
            FuturePoll::Ready(v) => {
                self.completed = true;
                FuturePoll::Ready(Ok(v))
            },
            FuturePoll::Pending => {
                match self.deadline.poll(now) {
                    FuturePoll::Ready(_) => {
                        self.completed = true;
                        FuturePoll::Ready(Err(TimeoutError))
                    },
                    FuturePoll::Pending => FuturePoll::Pending,
                }
            },
        }
    }
}

} // verus!
