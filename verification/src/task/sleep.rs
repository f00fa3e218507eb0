//! A one-shot, resettable timer polled as a single-value producer.

use vstd::prelude::*;

use crate::future::FuturePoll;
use crate::time::Duration;
use crate::time::Instant;

verus! {

/// The abstract state of a [`Sleep`].
pub ghost struct SleepModel {
    /// The originally requested span, kept for rearming.
    pub dur: nat,
    /// The instant at which the timer fires.
    pub deadline: nat,
    /// Whether the timer has already produced its value.
    pub completed: bool,
}

/// The state of a freshly armed sleep of span `dur`, created at `now`.
pub open spec fn armed_sleep(dur: nat, now: nat) -> SleepModel {
    SleepModel { dur, deadline: now + dur, completed: false }
}

/// The state of a sleep after it is rearmed at `now` for its original span.
pub open spec fn reset_sleep(m: SleepModel, now: nat) -> SleepModel {
    SleepModel { dur: m.dur, deadline: now + m.dur, completed: false }
}

/// Whether a sleep in state `m`, polled at instant `t`, fires.
pub open spec fn fires_at(m: SleepModel, t: nat) -> bool {
    t >= m.deadline
}

/// Sleeps for a span of time given at construction.
///
/// The timer fires once, at its deadline, and yields the instant of the poll
/// that observed it.  It can be rearmed in place with
/// [`Sleep::reset_deadline`] to run the same span again from the current
/// instant.
#[derive(Clone, Copy, Debug)]
pub struct Sleep {
    dur: Duration,
    deadline: Instant,
    completed: bool,
}

impl View for Sleep {
    type V = SleepModel;

    closed spec fn view(&self) -> SleepModel {
        SleepModel { dur: self.dur@, deadline: self.deadline@, completed: self.completed }
    }
}

/// Builds a timer that fires `dur` ticks after `now`.
pub fn sleep(dur: Duration, now: Instant) -> (s: Sleep)
    requires
        now@ + dur@ <= u64::MAX,
    ensures
        s@ == armed_sleep(dur@, now@),
{
    let deadline = Instant::from_ticks(now.as_ticks() + dur.as_ticks());
    Sleep { dur, deadline, completed: false }
}

impl Sleep {
    /// The span the timer was built with.
    pub fn duration(&self) -> (d: Duration)
        ensures
            d@ == self@.dur,
    {
        self.dur
    }

    /// The instant at which the timer fires.
    pub fn deadline(&self) -> (d: Instant)
        ensures
            d@ == self@.deadline,
    {
        self.deadline
    }

    /// Whether the timer has already fired and yielded its value.
    pub fn is_completed(&self) -> (b: bool)
        ensures
            b == self@.completed,
    {
        self.completed
    }

    /// Polls the timer at instant `now`.
    ///
    /// The timer stays pending strictly before its deadline; at or after the
    /// deadline it yields `now` exactly once and marks itself completed.  A
    /// completed timer must not be polled again: that is a caller defect, so
    /// it is excluded here rather than answered.
    pub fn poll(&mut self, now: Instant) -> (r: FuturePoll<Instant>)
        requires
            !old(self)@.completed,
        ensures
            fires_at(old(self)@, now@) ==> r == FuturePoll::Ready(now),
            fires_at(old(self)@, now@) ==> final(self)@ == (SleepModel {
                completed: true,
                ..old(self)@
            }),
            !fires_at(old(self)@, now@) ==> r == FuturePoll::<Instant>::Pending,
            !fires_at(old(self)@, now@) ==> *final(self) == *old(self),
    {
        if now.as_ticks() >= self.deadline.as_ticks() {
            self.completed = true;
            FuturePoll::Ready(now)
        } else {
            FuturePoll::Pending
        }
    }

    /// Rearms the timer to fire `dur` ticks after `now`, where `dur` is the
    /// span the timer was built with, and clears the completion flag.  The
    /// same instance then behaves as a fresh countdown, without reallocation.
    pub fn reset_deadline(&mut self, now: Instant)
        requires
            now@ + old(self)@.dur <= u64::MAX,
        ensures
            final(self)@ == reset_sleep(old(self)@, now@),
    {
        self.deadline = Instant::from_ticks(now.as_ticks() + self.dur.as_ticks());
        self.completed = false;
    }
}

/// A shorter sleep resolves strictly before a longer one armed at the same
/// instant: its deadline comes first, it already fires at that deadline, and
/// the longer one does not fire there yet.
pub proof fn lemma_shorter_sleep_resolves_first(d1: nat, d2: nat, now: nat)
    requires
        d1 < d2,
    ensures
        armed_sleep(d1, now).deadline < armed_sleep(d2, now).deadline,
        fires_at(armed_sleep(d1, now), armed_sleep(d1, now).deadline),
        !fires_at(armed_sleep(d2, now), armed_sleep(d1, now).deadline),
{
}

/// Rearming a completed sleep at `now` leaves exactly the state of a fresh
/// sleep of the same span built at `now`: no completion state survives a
/// reset.
pub proof fn lemma_reset_is_fresh(m: SleepModel, now: nat)
    requires
        m.completed,
    ensures
        reset_sleep(m, now) == armed_sleep(m.dur, now),
{
}

/// The abstract state of a [`SleepUntil`].
pub ghost struct SleepUntilModel {
    /// The instant at which the timer fires.
    pub deadline: nat,
    /// Whether the timer has already produced its value.
    pub completed: bool,
}

/// Sleeps until a fixed instant given at construction.
#[derive(Clone, Copy, Debug)]
pub struct SleepUntil {
    deadline: Instant,
    completed: bool,
}

impl View for SleepUntil {
    type V = SleepUntilModel;

    closed spec fn view(&self) -> SleepUntilModel {
        SleepUntilModel { deadline: self.deadline@, completed: self.completed }
    }
}

/// Builds a timer that fires at the instant `deadline`.
pub fn sleep_until(deadline: Instant) -> (s: SleepUntil)
    ensures
        s@ == (SleepUntilModel { deadline: deadline@, completed: false }),
{
    SleepUntil { deadline, completed: false }
}

impl SleepUntil {
    /// The instant at which the timer fires.
    pub fn deadline(&self) -> (d: Instant)
        ensures
            d@ == self@.deadline,
    {
        self.deadline
    }

    /// Whether the timer has already fired and yielded its value.
    pub fn is_completed(&self) -> (b: bool)
        ensures
            b == self@.completed,
    {
        self.completed
    }

    /// Polls the timer at instant `now`; the same contract as
    /// [`Sleep::poll`], against a fixed deadline.
    pub fn poll(&mut self, now: Instant) -> (r: FuturePoll<Instant>)
        requires
            !old(self)@.completed,
        ensures
            now@ >= old(self)@.deadline ==> r == FuturePoll::Ready(now),
            now@ >= old(self)@.deadline ==> final(self)@ == (SleepUntilModel {
                completed: true,
                ..old(self)@
            }),
            now@ < old(self)@.deadline ==> r == FuturePoll::<Instant>::Pending,
            now@ < old(self)@.deadline ==> *final(self) == *old(self),
    {
        if now.as_ticks() >= self.deadline.as_ticks() {
            self.completed = true;
            FuturePoll::Ready(now)
        } else {
            FuturePoll::Pending
        }
    }
}

} // verus!
