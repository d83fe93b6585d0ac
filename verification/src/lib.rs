//! The decision logic of a ZeroMQ wire-protocol endpoint: greetings, version
//! negotiation, handshakes, heartbeats and socket options.
//!
//! Every module is free of I/O.  Bytes that came in are handed to the functions
//! here, and what is to be sent, asked or reported comes back as a value.

pub mod buffer;
pub mod byte_order;
pub mod command;
pub mod error;
pub mod greeting;
pub mod heartbeat;
pub mod mechanism;
pub mod message;
pub mod options;
pub mod ready;
pub mod stream;
pub mod text;
pub mod time;
pub mod uring;
pub mod v2_rules;

pub use error::{ErrorView, ZmqError};
pub use time::{Duration, Instant};
