//! Connections that run on a byte stream.
//!
//! [`model`] says what the handshake does, [`handshake`] does it, one question to the
//! surroundings at a time, and [`laws`] holds what follows, whatever they answer.

pub mod handshake;
pub mod laws;
pub mod model;
pub mod types;
