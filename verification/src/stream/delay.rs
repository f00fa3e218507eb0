//! Holding a stream back once for a fixed duration.

use vstd::prelude::*;

use crate::future::DelayStep;
use crate::future::window_open;
use crate::stream::StreamPoll;
use crate::time::Duration;
use crate::time::Instant;

verus! {

/// The abstract state of a stream [`Delay`].
pub ghost struct DelayModel {
    /// The instant at which the delay window ends.
    pub deadline: nat,
    /// Whether the window has elapsed and the stream is being forwarded.
    pub streaming: bool,
}

/// The phase of the state machine: waiting for the timer, or forwarding.
#[derive(Clone, Copy, Debug, PartialEq, Eq, Structural)]
enum State {
    Timer,
    Streaming,
}

/// Delays the start of a stream by a fixed duration.
///
/// The whole stream starts one duration window late: the timer, armed once
/// at construction, is polled until it fires, and no item is observed
/// meanwhile.  The poll that observes the firing already forwards to the
/// inner stream, and from then on every poll goes straight through — the
/// timer is consulted at most once over the whole lifetime.  The inner
/// sequence of items is reproduced unmodified and unreordered.
#[derive(Debug)]
pub struct Delay<S> {
    stream: S,
    deadline: Instant,
    state: State,
}

impl<S> View for Delay<S> {
    type V = DelayModel;

    closed spec fn view(&self) -> DelayModel {
        DelayModel { deadline: self.deadline@, streaming: self.state == State::Streaming }
    }
}

impl<S> Delay<S> {
    /// The wrapped stream, as the machine holds it.
    pub closed spec fn inner(self) -> S {
        self.stream
    }

    /// Wraps `stream`, held back for `dur` ticks from `now`.
    pub fn new(stream: S, dur: Duration, now: Instant) -> (d: Delay<S>)
        requires
            now@ + dur@ <= u64::MAX,
        ensures
            d.inner() == stream,
            d@ == (DelayModel { deadline: now@ + dur@, streaming: false }),
    {
        let deadline = Instant::from_ticks(now.as_ticks() + dur.as_ticks());
        Delay { stream, deadline, state: State::Timer }
    }

    /// The instant at which the delay window ends.
    pub fn deadline(&self) -> (d: Instant)
        ensures
            d@ == self@.deadline,
    {
        self.deadline
    }

    /// Whether the window has elapsed and polls are forwarded to the stream.
    pub fn is_streaming(&self) -> (b: bool)
        ensures
            b == self@.streaming,
    {
        match self.state {
            State::Streaming => true,
            State::Timer => false,
        }
    }

    /// Exclusive access to the wrapped stream, so that the host can poll
    /// it; the rest of the machine is untouched.
    pub fn stream_mut(&mut self) -> (r: &mut S)
        ensures
            *r == old(self).inner(),
            final(self).inner() == *final(r),
            final(self)@ == old(self)@,
    {
        &mut self.stream
    }

    /// Decides one poll of the window, at instant `now`.
    ///
    /// The answer is [`DelayStep::PollInner`] exactly when the delay window
    /// has elapsed, and only then may the host poll the wrapped stream.
    pub fn poll_window(&mut self, now: Instant) -> (r: DelayStep)
        ensures
            final(self).inner() == old(self).inner(),
            r == DelayStep::PollInner <==> window_open(old(self)@.deadline, old(self)@.streaming, now@),
            final(self)@.streaming == window_open(old(self)@.deadline, old(self)@.streaming, now@),
            final(self)@.deadline == old(self)@.deadline,
            r == DelayStep::Wait ==> *final(self) == *old(self),
    {
        match self.state {
            State::Streaming => DelayStep::PollInner,
            State::Timer => {
                if now.as_ticks() >= self.deadline.as_ticks() {
                    self.state = State::Streaming;
                    DelayStep::PollInner
                } else {
                    DelayStep::Wait
                }
            },
        }
    }

    /// Forwards one poll outcome of the wrapped stream, once the window is
    /// open.  The outcome is handed through unchanged: the delayed stream
    /// yields exactly the items the inner stream yields, in the same order.
    pub fn poll_stream<T>(&self, inner: StreamPoll<T>) -> (r: StreamPoll<T>)
        requires
            self@.streaming,
        ensures
            r == inner,
    {
        inner
    }
}

/// What one composite poll at instant `now` observes, given the state of the
/// window and the outcome `inner` that the wrapped stream would answer:
/// nothing while the window is shut, the inner outcome once it is open.  A
/// composite poll is [`Delay::poll_window`] followed, only when the window
/// is open, by [`Delay::poll_stream`].
pub open spec fn delay_output<T>(
    deadline: nat,
    streaming: bool,
    now: nat,
    inner: StreamPoll<T>,
) -> StreamPoll<T> {
    if window_open(deadline, streaming, now) {
        inner
    } else {
        StreamPoll::Pending
    }
}

/// What a run of composite polls observes: `polls` pairs each poll instant
/// with the outcome the wrapped stream would answer at that poll.
pub open spec fn delay_outputs<T>(
    deadline: nat,
    streaming: bool,
    polls: Seq<(nat, StreamPoll<T>)>,
) -> Seq<StreamPoll<T>>
    decreases polls.len(),
{
    if polls.len() == 0 {
        Seq::empty()
    } else {
        seq![delay_output(deadline, streaming, polls[0].0, polls[0].1)] + delay_outputs(
            deadline,
            window_open(deadline, streaming, polls[0].0),
            polls.drop_first(),
        )
    }
}

/// Zero items are observed before the delay window elapses: every composite
/// poll strictly before the deadline answers pending, whatever the wrapped
/// stream would have yielded.
pub proof fn lemma_no_items_before_deadline<T>(deadline: nat, polls: Seq<(nat, StreamPoll<T>)>)
    requires
        forall|i: int| 0 <= i < polls.len() ==> polls[i].0 < deadline,
    ensures
        delay_outputs(deadline, false, polls).len() == polls.len(),
        forall|i: int| 0 <= i < polls.len() ==> delay_outputs(deadline, false, polls)[i] is Pending,
    decreases polls.len(),
{
    if polls.len() > 0 {
        assert(polls[0].0 < deadline);
        assert forall|i: int| 0 <= i < polls.drop_first().len() implies polls.drop_first()[i].0
            < deadline by {
            assert(polls.drop_first()[i] == polls[i + 1]);
        }
        lemma_no_items_before_deadline(deadline, polls.drop_first());
        assert forall|i: int|
            0 <= i < polls.len() implies delay_outputs(deadline, false, polls)[i] is Pending by {
            if i > 0 {
                assert(delay_outputs(deadline, false, polls)[i] == delay_outputs(
                    deadline,
                    false,
                    polls.drop_first(),
                )[i - 1]);
            }
        }
    }
}

/// Once the window is open the composite reproduces the wrapped stream
/// exactly: every composite poll observes precisely what the inner stream
/// answers, in order.
pub proof fn lemma_streaming_passthrough<T>(deadline: nat, polls: Seq<(nat, StreamPoll<T>)>)
    ensures
        delay_outputs(deadline, true, polls).len() == polls.len(),
        forall|i: int| 0 <= i < polls.len() ==> delay_outputs(deadline, true, polls)[i]
            == polls[i].1,
    decreases polls.len(),
{
    if polls.len() > 0 {
        lemma_streaming_passthrough(deadline, polls.drop_first());
        assert forall|i: int|
            0 <= i < polls.len() implies delay_outputs(deadline, true, polls)[i] == polls[i].1 by {
            if i > 0 {
                assert(delay_outputs(deadline, true, polls)[i] == delay_outputs(
                    deadline,
                    true,
                    polls.drop_first(),
                )[i - 1]);
                assert(polls.drop_first()[i - 1] == polls[i]);
            }
        }
    }
}

} // verus!
