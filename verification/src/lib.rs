//! Live host telemetry over message streams.
//!
//! A sampler produces immutable metric snapshots on a fixed period; a
//! connection broker fans them out over a bounded broadcast bus to any
//! number of consumers without letting a slow consumer stall the producer;
//! a keyed fan-out registry distributes operational events to consumers
//! grouped by an opaque client key.  The wire vocabulary is a small JSON
//! protocol with a `"type"` discriminant on every frame.

pub mod broker;
pub mod bus;
pub mod codec;
pub mod docker;
pub mod error;
pub mod fanout;
pub mod netutil;
pub mod numfmt;
pub mod sampler;
pub mod settings;
pub mod textenc;
pub mod types;
