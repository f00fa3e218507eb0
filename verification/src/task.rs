//! One-shot timers, polled as single-value producers.

mod sleep;

pub use sleep::sleep;
pub use sleep::sleep_until;
pub use sleep::Sleep;
pub use sleep::SleepModel;
pub use sleep::SleepUntil;
pub use sleep::SleepUntilModel;
pub use sleep::armed_sleep;
pub use sleep::fires_at;
pub use sleep::reset_sleep;
pub use sleep::lemma_reset_is_fresh;
pub use sleep::lemma_shorter_sleep_resolves_first;
