//! The crate's prelude: the two extension traits.

pub use crate::future::FutureExt;
pub use crate::stream::StreamExt;
