//! Control signals for pausing and resuming a stream.
//!
//! The signals travel over an external channel whose receiving end is polled
//! like a stream.  The channel itself lives with the host; the machines in
//! this crate only look at the outcome of one such poll, a [`ChannelPoll`].

use vstd::prelude::*;

verus! {

/// A control signal for a parked stream.
#[derive(Clone, Copy, Debug, PartialEq, Eq, Structural)]
pub enum Parker {
    /// Request that emission be suspended.
    Park,
    /// Request that emission resume.
    Unpark,
}

/// The outcome of polling the receiving end of the control channel.
#[derive(Clone, Copy, Debug, PartialEq, Eq, Structural)]
pub enum ChannelPoll {
    /// No signal is available yet; the channel is still open.
    Pending,
    /// A control signal arrived.
    Msg(Parker),
    /// The sending side has been dropped; no signal will ever arrive again.
    Closed,
}

} // verus!
