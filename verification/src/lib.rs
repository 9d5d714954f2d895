//! A verified core for a bidirectional TCP byte relay with an IRC line parser.
//!
//! The crate has two independent parts: a backpressure-aware byte-splicing
//! engine (a bounded ring buffer driven by a poll-style state machine), and a
//! zero-copy extractor for the verb and CAP fields of a single IRC line.

mod irc;
mod splice;

pub use irc::extract_cap;
pub use irc::extract_verb;
pub use irc::CapMessage;
pub use splice::PumpState;
pub use splice::RelayPair;
pub use splice::SpliceBuffer;
pub use splice::Splicer;
