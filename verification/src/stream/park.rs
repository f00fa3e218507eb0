//! Pausing and resuming a stream through control signals.

use vstd::prelude::*;

use crate::channel::ChannelPoll;
use crate::channel::Parker;
use crate::stream::StreamPoll;

verus! {

/// The state of a [`Park`] machine.
#[derive(Clone, Copy, Debug, PartialEq, Eq, Structural)]
pub enum ParkState {
    /// Emission is running: the inner stream is polled for items.
    Active,
    /// Emission is paused: only the control channel is watched.
    Suspended,
    /// The control channel closed: signals are ignored forever and the
    /// machine degenerates to a passthrough of the inner stream.
    NoChannel,
    /// The inner stream ended; polling again is a caller defect.
    Completed,
}

/// What a park machine asks the host to poll next.
#[derive(Clone, Copy, Debug, PartialEq, Eq, Structural)]
pub enum ParkAction {
    /// Poll the receiving end of the control channel.
    PollChannel,
    /// Poll the wrapped stream.
    PollStream,
}

/// What follows one control-channel consultation within a single poll.
#[derive(Clone, Copy, Debug, PartialEq, Eq, Structural)]
pub enum ParkStep {
    /// No progress is possible: the composite poll ends with nothing.
    Pending,
    /// Progress was made: continue the same poll with the given action.
    Continue(ParkAction),
}

/// Where a composite poll starts, in state `s`: a suspended or active
/// machine consults the control channel first, one whose channel closed goes
/// straight to the stream.
pub open spec fn start_action(s: ParkState) -> ParkAction
    recommends
        s != ParkState::Completed,
{
    match s {
        ParkState::NoChannel => ParkAction::PollStream,
        _ => ParkAction::PollChannel,
    }
}

/// The step taken on one control-channel outcome `ev` in state `s`.
///
/// Suspended: a resume signal activates the machine and the channel is
/// checked once more in the same poll; a pause signal or an open, silent
/// channel keeps it suspended with no progress; a closed channel degrades it
/// to a passthrough.  Active: an immediately available pause signal suspends
/// it before the stream is consulted; anything else — silence, a redundant
/// resume, or even closure — leaves it active and the stream is polled next.
pub open spec fn channel_step(s: ParkState, ev: ChannelPoll) -> (ParkState, ParkStep)
    recommends
        s == ParkState::Active || s == ParkState::Suspended,
{
    match s {
        ParkState::Suspended => match ev {
            ChannelPoll::Pending => (ParkState::Suspended, ParkStep::Pending),
            ChannelPoll::Msg(Parker::Park) => (ParkState::Suspended, ParkStep::Pending),
            ChannelPoll::Msg(Parker::Unpark) => (
                ParkState::Active,
                ParkStep::Continue(ParkAction::PollChannel),
            ),
            ChannelPoll::Closed => (ParkState::NoChannel, ParkStep::Continue(ParkAction::PollStream)),
        },
        ParkState::Active => match ev {
            ChannelPoll::Msg(Parker::Park) => (ParkState::Suspended, ParkStep::Pending),
            _ => (ParkState::Active, ParkStep::Continue(ParkAction::PollStream)),
        },
        _ => (s, ParkStep::Pending),
    }
}

/// The step taken on one stream outcome `ev` in state `s`: items and silence
/// pass through unchanged, the end of the stream completes the machine.
pub open spec fn stream_step<T>(s: ParkState, ev: StreamPoll<T>) -> (ParkState, StreamPoll<T>)
    recommends
        s == ParkState::Active || s == ParkState::NoChannel,
{
    match ev {
        StreamPoll::Done => (ParkState::Completed, StreamPoll::Done),
        _ => (s, ev),
    }
}

/// Suspends or resumes a stream on external control signals.
///
/// A fresh machine starts suspended and emits nothing until an explicit
/// resume signal arrives over the channel.  While active, a pending pause
/// signal preempts emission before the stream is consulted.  When the
/// channel closes the machine becomes a plain passthrough of the inner
/// stream; when the inner stream ends the machine is completed and must not
/// be polled again.
#[derive(Debug)]
pub struct Park<S, R> {
    stream: S,
    receiver: R,
    state: ParkState,
}

impl<S, R> View for Park<S, R> {
    type V = ParkState;

    closed spec fn view(&self) -> ParkState {
        self.state
    }
}

impl<S, R> Park<S, R> {
    /// The wrapped stream, as the machine holds it.
    pub closed spec fn inner(self) -> S {
        self.stream
    }

    /// The receiving end of the control channel, as the machine holds it.
    pub closed spec fn receiver(self) -> R {
        self.receiver
    }

    /// Wraps `stream`, paused until a resume signal arrives on `receiver`.
    pub fn new(stream: S, receiver: R) -> (p: Park<S, R>)
        ensures
            p.inner() == stream,
            p.receiver() == receiver,
            p@ == ParkState::Suspended,
    {
        Park { stream, receiver, state: ParkState::Suspended }
    }

    /// The current state of the machine.
    pub fn state(&self) -> (s: ParkState)
        ensures
            s == self@,
    {
        self.state
    }

    /// Exclusive access to the wrapped stream, so that the host can poll
    /// it; the rest of the machine is untouched.
    pub fn stream_mut(&mut self) -> (r: &mut S)
        ensures
            *r == old(self).inner(),
            final(self).inner() == *final(r),
            final(self).receiver() == old(self).receiver(),
            final(self)@ == old(self)@,
    {
        &mut self.stream
    }

    /// Exclusive access to the channel receiver, so that the host can poll
    /// it; the rest of the machine is untouched.
    pub fn receiver_mut(&mut self) -> (r: &mut R)
        ensures
            *r == old(self).receiver(),
            final(self).receiver() == *final(r),
            final(self).inner() == old(self).inner(),
            final(self)@ == old(self)@,
    {
        &mut self.receiver
    }

    /// Where the next composite poll starts.  A completed machine must not
    /// be polled again: that is a caller defect, so it is excluded here
    /// rather than answered.
    pub fn next_action(&self) -> (a: ParkAction)
        requires
            self@ != ParkState::Completed,
        ensures
            a == start_action(self@),
    {
        match self.state {
            ParkState::NoChannel => ParkAction::PollStream,
            _ => ParkAction::PollChannel,
        }
    }

    /// Feeds one control-channel outcome to the machine; see
    /// [`channel_step`] for the transition it takes.
    pub fn on_channel(&mut self, ev: ChannelPoll) -> (r: ParkStep)
        requires
            old(self)@ == ParkState::Active || old(self)@ == ParkState::Suspended,
        ensures
            (final(self)@, r) == channel_step(old(self)@, ev),
            final(self).inner() == old(self).inner(),
            final(self).receiver() == old(self).receiver(),
    {
        match self.state {
            ParkState::Suspended => match ev {
                ChannelPoll::Pending => ParkStep::Pending,
                ChannelPoll::Msg(Parker::Park) => ParkStep::Pending,
                ChannelPoll::Msg(Parker::Unpark) => {
                    self.state = ParkState::Active;
                    ParkStep::Continue(ParkAction::PollChannel)
                },
                ChannelPoll::Closed => {
                    self.state = ParkState::NoChannel;
                    ParkStep::Continue(ParkAction::PollStream)
                },
            },
            ParkState::Active => match ev {
                ChannelPoll::Msg(Parker::Park) => {
                    self.state = ParkState::Suspended;
                    ParkStep::Pending
                },
                _ => ParkStep::Continue(ParkAction::PollStream),
            },
            _ => ParkStep::Pending,
        }
    }

    /// Feeds one stream outcome to the machine; see [`stream_step`] for the
    /// transition it takes.  Items and the end of the stream are forwarded
    /// unchanged; the end completes the machine for good.
    pub fn on_stream<T>(&mut self, ev: StreamPoll<T>) -> (r: StreamPoll<T>)
        requires
            old(self)@ == ParkState::Active || old(self)@ == ParkState::NoChannel,
        ensures
            (final(self)@, r) == stream_step(old(self)@, ev),
            final(self).inner() == old(self).inner(),
            final(self).receiver() == old(self).receiver(),
    {
        match ev {
            StreamPoll::Done => {
                self.state = ParkState::Completed;
                StreamPoll::Done
            },
            _ => ev,
        }
    }
}

/// The machine state after feeding the control-channel outcomes `evs`, one
/// by one, starting in state `s`.
pub open spec fn channel_state_after(s: ParkState, evs: Seq<ChannelPoll>) -> ParkState
    decreases evs.len(),
{
    if evs.len() == 0 {
        s
    } else {
        channel_state_after(channel_step(s, evs[0]).0, evs.drop_first())
    }
}

/// With no resume signal ever sent on an open channel, a suspended machine
/// stays suspended and makes no progress: every consultation ends the poll
/// with nothing, however many times it is polled, so no item is ever
/// emitted.
pub proof fn lemma_park_stays_suspended(evs: Seq<ChannelPoll>)
    requires
        forall|i: int|
            0 <= i < evs.len() ==> (evs[i] == ChannelPoll::Pending || evs[i] == ChannelPoll::Msg(
                Parker::Park,
            )),
    ensures
        channel_state_after(ParkState::Suspended, evs) == ParkState::Suspended,
        forall|i: int|
            0 <= i < evs.len() ==> channel_step(
                channel_state_after(ParkState::Suspended, evs.take(i)),
                evs[i],
            ).1 == ParkStep::Pending,
    decreases evs.len(),
{
    if evs.len() > 0 {
        assert(evs[0] == ChannelPoll::Pending || evs[0] == ChannelPoll::Msg(Parker::Park));
        assert forall|i: int|
            0 <= i < evs.drop_first().len() implies (evs.drop_first()[i] == ChannelPoll::Pending
            || evs.drop_first()[i] == ChannelPoll::Msg(Parker::Park)) by {
            assert(evs.drop_first()[i] == evs[i + 1]);
        }
        lemma_park_stays_suspended(evs.drop_first());
        assert forall|i: int|
            0 <= i < evs.len() implies channel_step(
            channel_state_after(ParkState::Suspended, evs.take(i)),
            evs[i],
        ).1 == ParkStep::Pending by {
            assert forall|j: int| 0 <= j < evs.take(i).len() implies (evs.take(i)[j]
                == ChannelPoll::Pending || evs.take(i)[j] == ChannelPoll::Msg(Parker::Park)) by {
                assert(evs.take(i)[j] == evs[j]);
            }
            lemma_park_stays_suspended(evs.take(i));
            assert(channel_state_after(ParkState::Suspended, evs.take(i)) == ParkState::Suspended);
        }
    }
}

/// The machine state after feeding the stream outcomes `evs`, one by one,
/// starting in state `s`.
pub open spec fn stream_state_after<T>(s: ParkState, evs: Seq<StreamPoll<T>>) -> ParkState
    decreases evs.len(),
{
    if evs.len() == 0 {
        s
    } else {
        stream_state_after(stream_step(s, evs[0]).0, evs.drop_first())
    }
}

/// What the machine emits for the stream outcomes `evs`, one by one,
/// starting in state `s`.
pub open spec fn stream_outputs<T>(s: ParkState, evs: Seq<StreamPoll<T>>) -> Seq<StreamPoll<T>>
    decreases evs.len(),
{
    if evs.len() == 0 {
        Seq::empty()
    } else {
        seq![stream_step(s, evs[0]).1] + stream_outputs(stream_step(s, evs[0]).0, evs.drop_first())
    }
}

/// While emission runs — the machine active, or its channel closed — the
/// inner stream's outcomes flow through unchanged and in order: nothing is
/// lost, duplicated or reordered, and the machine stays in its state until
/// the stream ends.
pub proof fn lemma_park_passthrough<T>(s: ParkState, evs: Seq<StreamPoll<T>>)
    requires
        s == ParkState::Active || s == ParkState::NoChannel,
        forall|i: int| 0 <= i < evs.len() ==> !(evs[i] is Done),
    ensures
        stream_outputs(s, evs).len() == evs.len(),
        forall|i: int| 0 <= i < evs.len() ==> stream_outputs(s, evs)[i] == evs[i],
        stream_state_after(s, evs) == s,
    decreases evs.len(),
{
    if evs.len() > 0 {
        assert(!(evs[0] is Done));
        assert forall|i: int| 0 <= i < evs.drop_first().len() implies !(evs.drop_first()[i]
            is Done) by {
            assert(evs.drop_first()[i] == evs[i + 1]);
        }
        lemma_park_passthrough(s, evs.drop_first());
        assert forall|i: int| 0 <= i < evs.len() implies stream_outputs(s, evs)[i] == evs[i] by {
            if i > 0 {
                assert(stream_outputs(s, evs)[i] == stream_outputs(s, evs.drop_first())[i - 1]);
                assert(evs.drop_first()[i - 1] == evs[i]);
            }
        }
    }
}

/// A pause signal that is already available when an active machine is
/// polled preempts emission: the machine suspends and ends the poll before
/// the inner stream is consulted, so no in-flight item is lost or
/// duplicated.
pub proof fn lemma_pause_preempts()
    ensures
        channel_step(ParkState::Active, ChannelPoll::Msg(Parker::Park)) == (
            ParkState::Suspended,
            ParkStep::Pending,
        ),
{
}

/// A resume signal activates a suspended machine within the same poll, and
/// the channel is checked once more before any item is emitted.
pub proof fn lemma_unpark_resumes()
    ensures
        channel_step(ParkState::Suspended, ChannelPoll::Msg(Parker::Unpark)) == (
            ParkState::Active,
            ParkStep::Continue(ParkAction::PollChannel),
        ),
{
}

/// When the channel closes on a suspended machine, the machine permanently
/// degrades to a passthrough: it goes straight to the inner stream in the
/// same poll, and every later poll starts at the stream, never at the
/// channel.
pub proof fn lemma_closed_channel_degrades()
    ensures
        channel_step(ParkState::Suspended, ChannelPoll::Closed) == (
            ParkState::NoChannel,
            ParkStep::Continue(ParkAction::PollStream),
        ),
        start_action(ParkState::NoChannel) == ParkAction::PollStream,
{
}

} // verus!
