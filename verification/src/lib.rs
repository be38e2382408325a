//! A single-threaded node runtime for a line-delimited message protocol, and a
//! multi-node value-broadcast service built on it.
//!
//! The runtime reads one envelope at a time, validates it (addressed to this
//! node, node already initialised), and routes its payload to a handler; a
//! sending capability builds outbound envelopes with fresh, strictly
//! increasing message ids and correct reply correlation. The broadcast node
//! keeps a monotonically growing store of values and disseminates them to its
//! neighbours with a gossip flood bounded by an "informed" set.
//!
//! Reading and writing the actual byte channels, and the wire encoding of
//! envelopes, live outside this crate; the library works on plain values.

pub mod echo;
pub mod message;
pub mod node;
pub mod runtime;
pub mod sender;
pub mod single_node;
pub mod unique_id;

pub use message::InitMessage;
