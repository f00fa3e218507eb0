//! Combinators for single-value producers.

mod delay;
mod future_ext;
mod timeout;

pub use delay::Delay;
pub use delay::DelayStep;
pub use delay::window_fired_after;
pub use delay::window_open;
pub use delay::lemma_window_stays_shut;
pub use delay::lemma_inner_not_polled_before_deadline;
pub use future_ext::FutureExt;
pub use timeout::Timeout;
pub use timeout::TimeoutError;

use vstd::prelude::*;

verus! {

/// The outcome of polling a single-value producer.
///
/// A producer that returns [`FuturePoll::Pending`] has made no progress and
/// must be polled again later; one that returns [`FuturePoll::Ready`] has
/// produced its value and is spent.
#[derive(Debug, PartialEq, Eq)]
pub enum FuturePoll<T> {
    /// The producer is not ready yet.
    Pending,
    /// The producer finished with its value.
    Ready(T),
}

} // verus!
