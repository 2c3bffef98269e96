//! A verified tunnel engine: identity lifecycle, connection acceptance,
//! per-connection stream multiplexing, and bidirectional forwarding with
//! half-close and error-isolation semantics.
//!
//! The engine is pure: every decision (what to do with a chunk of bytes, when
//! a forwarding pair is complete, how a session or acceptor reacts to an
//! event) is a verified function from plain values to plain values. The
//! asynchronous transport, the sockets and the process's standard streams are
//! driven by an unverified shell that feeds events to this engine and carries
//! out the actions it returns.

use vstd::prelude::*;

pub mod client;
pub mod config;
pub mod errors;
pub mod forward;
pub mod identity;
pub mod protocol;
pub mod server;

verus! {

/// The length, in bytes, of the persistent identity secret.
pub const KEY_LEN: usize = 32;

} // verus!
