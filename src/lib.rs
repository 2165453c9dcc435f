//! Operating-system signals delivered as ordinary values.
//!
//! The catalog maps each signal to its numeric code on Linux and back; the
//! relay moves notifications out of handler context into a queue that is
//! drained without blocking, and admits at most one live handle at a time.
pub mod catalog;
pub mod relay;

pub use catalog::{Signal, SIGNAL_COUNT};
pub use relay::{Relay, SignalIter, Signals};
