//! Verified core of an interprocess-communication benchmark suite.
//!
//! The crate holds the logic that the benchmark's transports and drivers
//! share: the message model and its binary encoding, the length-prefixed
//! stream framing, the circular byte ring that backs the shared-memory
//! transport, the single-slot exchange protocol of the direct shared-memory
//! transport, transport configuration and selection, the server's reply
//! rules, and the throughput and latency bookkeeping.

mod bytes_util;
pub mod direct;
pub mod frame;
pub mod latency_format;
pub mod ring_buffer;
pub mod shm_state;
pub mod standalone;
pub mod transport;
pub mod message;
pub mod metrics;
pub mod pmq;
pub mod retry;

pub use message::{Message, MessageType};
