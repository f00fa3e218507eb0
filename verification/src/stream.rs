//! Combinators for multi-value producers.

mod delay;
mod park;
mod stream_ext;

pub use delay::Delay;
pub use delay::DelayModel;
pub use delay::delay_output;
pub use delay::delay_outputs;
pub use delay::lemma_no_items_before_deadline;
pub use delay::lemma_streaming_passthrough;
pub use park::Park;
pub use park::ParkAction;
pub use park::ParkState;
pub use park::ParkStep;
pub use park::channel_state_after;
pub use park::channel_step;
pub use park::lemma_closed_channel_degrades;
pub use park::lemma_park_passthrough;
pub use park::lemma_park_stays_suspended;
pub use park::lemma_pause_preempts;
pub use park::lemma_unpark_resumes;
pub use park::start_action;
pub use park::stream_state_after;
pub use park::stream_outputs;
pub use park::stream_step;
pub use stream_ext::StreamExt;

use vstd::prelude::*;

verus! {

/// The outcome of polling a multi-value producer.
///
/// A stream yields any number of items over repeated polls and then ends;
/// a poll observes one of three things: no progress yet, the next item, or
/// the end of the stream.
#[derive(Debug, PartialEq, Eq)]
pub enum StreamPoll<T> {
    /// No item is ready yet; poll again later.
    Pending,
    /// The next item of the stream.
    Ready(T),
    /// The stream has ended and will never yield an item again.
    Done,
}

} // verus!
