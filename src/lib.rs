//! Reliable point-to-point delivery over datagrams: a one-byte role
//! handshake against a rendezvous endpoint, a private channel per session,
//! and stop-and-wait acknowledgment with fragmentation.
//!
//! The socket work is done by the caller; this crate holds the protocol's
//! decisions as state machines that are driven one event at a time.
pub mod channel;
pub mod codec;
pub mod laws;
pub mod rendezvous;
pub mod stream;
