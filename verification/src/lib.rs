//! A transport-agnostic core for a byte-transparent TCP relay.
//!
//! The crate holds the decisions of a relay and none of its I/O. Each part is a
//! small state machine: a driver performs the action the machine asks for
//! (dial, read, write, close) and reports what happened as an event.
//!
//! * [`config`]: the two tunables, dial timeout and transfer buffer size.
//! * [`forwarder`]: one direction of a session, the read/write copy loop.
//! * [`session`]: the lifecycle of one proxied connection.
//! * [`listener`]: the accept loop that starts sessions.

pub mod config;
pub mod forwarder;
pub mod listener;
pub mod session;
