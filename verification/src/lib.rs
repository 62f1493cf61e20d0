//! Normalization and sequencing pipeline for a venue trade feed.
//!
//! Raw venue messages arrive as dynamically shaped JSON trees. The library
//! flattens each message into trade-record candidates, extracts canonical
//! fields under several accepted key aliases, infers the unit of an integer
//! timestamp from its magnitude, assigns a monotonic per-symbol sequence
//! number when the venue supplies none, and builds the canonical trade
//! envelope that is handed to the publication sink.

pub mod config;
pub mod envelope;
pub mod extract;
pub mod flatten;
pub mod gen;
pub mod sequence;
pub mod json;
pub mod numfmt;
pub mod pipeline;
pub mod timeunit;
pub mod wire;

pub use timeunit::{now_ns, scale_to_ns, scale_to_ns_at, spec_scale_to_ns, spec_scale_to_ns_at};
