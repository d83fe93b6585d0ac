//! Connections that run on io_uring.
//!
//! [`model`] and [`calls`] say what a connection does, [`handler`] does it, one
//! question to the surroundings at a time, and [`session`] runs whole calls.
//! [`laws`] and [`outcomes`] hold what follows, whatever the surroundings answer.

pub mod calls;
pub mod factory;
pub mod handler;
pub mod laws;
pub mod model;
pub mod outcomes;
pub mod session;
pub mod types;
