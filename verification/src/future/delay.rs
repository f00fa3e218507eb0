//! Holding a single-value producer back until a deadline.

use vstd::prelude::*;

use crate::future::FuturePoll;
use crate::task::SleepUntil;
use crate::time::Instant;

verus! {

/// What a poll of a delayed producer may do next.
#[derive(Clone, Copy, Debug, PartialEq, Eq, Structural)]
pub enum DelayStep {
    /// The deadline has not passed: make no progress and poll again later.
    Wait,
    /// The delay window has elapsed: poll the wrapped producer now.
    PollInner,
}

/// Whether a delay window ending at `deadline`, which has already fired
/// when `fired` holds, is open on a poll at instant `now`.
pub open spec fn window_open(deadline: nat, fired: bool, now: nat) -> bool {
    fired || now >= deadline
}

/// Whether the window has fired after polls at `times`, starting from `fired`.
pub open spec fn window_fired_after(deadline: nat, fired: bool, times: Seq<nat>) -> bool
    decreases times.len(),
{
    if times.len() == 0 {
        fired
    } else {
        window_fired_after(deadline, window_open(deadline, fired, times[0]), times.drop_first())
    }
}

/// A window that never saw an instant at or past its deadline stays shut: after
/// any such sequence of polls it still has not fired.
pub proof fn lemma_window_stays_shut(deadline: nat, times: Seq<nat>)
    requires
        forall|i: int| 0 <= i < times.len() ==> times[i] < deadline,
    ensures
        !window_fired_after(deadline, false, times),
    decreases times.len(),
{
    if times.len() > 0 {
        assert(times[0] < deadline);
        assert forall|i: int| 0 <= i < times.drop_first().len() implies times.drop_first()[i]
            < deadline by {
            assert(times.drop_first()[i] == times[i + 1]);
        }
        lemma_window_stays_shut(deadline, times.drop_first());
    }
}

/// Before its deadline a shut window answers every poll with [`DelayStep::Wait`]:
/// the wrapped producer is never polled before the deadline has passed.
pub proof fn lemma_inner_not_polled_before_deadline(deadline: nat, times: Seq<nat>)
    requires
        forall|i: int| 0 <= i < times.len() ==> times[i] < deadline,
    ensures
        forall|i: int|
            0 <= i < times.len() ==> !window_open(
                deadline,
                window_fired_after(deadline, false, times.take(i)),
                times[i],
            ),
{
    assert forall|i: int| 0 <= i < times.len() implies !window_open(
        deadline,
        window_fired_after(deadline, false, times.take(i)),
        times[i],
    ) by {
        assert forall|j: int| 0 <= j < times.take(i).len() implies times.take(i)[j] < deadline by {
            assert(times.take(i)[j] == times[j]);
        }
        lemma_window_stays_shut(deadline, times.take(i));
    }
}

/// Delays a single-value producer until a deadline has passed.
///
/// While the deadline producer has not fired, only the deadline is polled
/// and no progress is made.  From the poll that observes the deadline on,
/// every poll goes to the wrapped producer and the deadline is never
/// consulted again.  Unlike [`Timeout`](crate::future::Timeout) this delays
/// the start of the work; it does not race it.
#[derive(Debug)]
pub struct Delay<F, D> {
    future: F,
    deadline: D,
    fired: bool,
}

impl<F, D> Delay<F, D> {
    /// The wrapped producer, as the machine holds it.
    pub closed spec fn inner(self) -> F {
        self.future
    }

    /// The deadline producer, as the machine holds it.
    pub closed spec fn deadline_producer(self) -> D {
        self.deadline
    }

    /// Whether the deadline has fired and the window is permanently open.
    pub closed spec fn has_fired(self) -> bool {
        self.fired
    }

    /// Wraps `future`, to be held back until `deadline` fires.
    pub fn new(future: F, deadline: D) -> (d: Delay<F, D>)
        ensures
            d.inner() == future,
            d.deadline_producer() == deadline,
            !d.has_fired(),
    {
        Delay { future, deadline, fired: false }
    }

    /// Whether the deadline has fired and the window is permanently open.
    pub fn fired(&self) -> (b: bool)
        ensures
            b == self.has_fired(),
    {
        self.fired
    }

    /// Exclusive access to the wrapped producer, so that the host can poll
    /// it; the rest of the machine is untouched.
    pub fn future_mut(&mut self) -> (r: &mut F)
        ensures
            *r == old(self).inner(),
            final(self).inner() == *final(r),
            final(self).deadline_producer() == old(self).deadline_producer(),
            final(self).has_fired() == old(self).has_fired(),
    {
        &mut self.future
    }
}

impl<F> Delay<F, SleepUntil> {
    /// Whether another poll of the window is allowed: either the deadline has
    /// fired, or the deadline producer is still pollable.
    pub open spec fn can_poll(self) -> bool {
        self.has_fired() || !self.deadline_producer()@.completed
    }

    /// The instant at which the delay window ends.
    pub fn deadline(&self) -> (d: Instant)
        ensures
            d@ == self.deadline_producer()@.deadline,
    {
        self.deadline.deadline()
    }

    /// Decides one poll of the window, at instant `now`.
    ///
    /// The answer is [`DelayStep::PollInner`] exactly when the deadline has
    /// passed, and only then may the host poll the wrapped producer; the
    /// deadline producer is consulted at most once over the whole lifetime.
    pub fn poll_window(&mut self, now: Instant) -> (r: DelayStep)
        requires
            old(self).can_poll(),
        ensures
            final(self).inner() == old(self).inner(),
            r == DelayStep::PollInner <==> window_open(
                old(self).deadline_producer()@.deadline,
                old(self).has_fired(),
                now@,
            ),
            final(self).has_fired() == window_open(
                old(self).deadline_producer()@.deadline,
                old(self).has_fired(),
                now@,
            ),
            r == DelayStep::Wait ==> *final(self) == *old(self),
            final(self).can_poll(),
    {
        if self.fired {
            DelayStep::PollInner
        } else {
            match self.deadline.poll(now) {
                FuturePoll::Ready(_) => {
                    self.fired = true;
                    DelayStep::PollInner
                },
                FuturePoll::Pending => DelayStep::Wait,
            }
        }
    }

    /// Forwards one poll outcome of the wrapped producer, once the window is
    /// open.  The outcome is handed through unchanged: the delay never
    /// suppresses or transforms what the wrapped producer returns.
    pub fn poll_inner<T>(&self, inner: FuturePoll<T>) -> (r: FuturePoll<T>)
        requires
            self.has_fired(),
        ensures
            r == inner,
    {
        inner
    }
}

} // verus!
