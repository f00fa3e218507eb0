//! Time-aware combinators for cooperatively polled producers.
//!
//! A *future* produces a single value and a *stream* produces a sequence of
//! values; both are driven by an external caller that repeatedly polls them
//! and interprets the outcome (ready, completed, or not yet ready).  This
//! crate provides the decision logic of the time-based operators as explicit
//! state machines over a monotonic clock measured in ticks:
//!
//! - [`task::sleep`] and [`task::sleep_until`]: a resettable one-shot timer.
//! - [`future::Timeout`]: race a future against a deadline.
//! - [`future::Delay`]: hold a future back until a deadline has passed.
//! - [`stream::Delay`]: hold a stream back once for a fixed duration.
//! - [`stream::Park`]: pause and resume a stream through control signals.
//!
//! Each machine exposes poll-step methods that take the current instant and
//! the outcome of polling a wrapped producer, and decide what the combinator
//! observes next.  The host that owns the real timers and channels performs
//! the waiting and feeds the outcomes in.

pub mod channel;
pub mod future;
pub mod prelude;
pub mod stream;
pub mod task;
pub mod time;
