//! The error taxonomy of the tunnel engine.
//!
//! Errors never cross the ownership hierarchy: a child's failure is contained
//! at its level, and only startup-level errors abort the whole process.

use vstd::prelude::*;

verus! {

/// Every failure the engine distinguishes.
#[derive(Clone, Copy, PartialEq, Eq, Structural, Debug)]
pub enum TunnelError {
    /// The identity key file was readable but held the wrong number of bytes.
    /// Fatal, startup-only, server-side.
    IdentityIo {
        /// How many bytes the file held.
        found: usize,
    },
    /// The listening endpoint could not be bound. Fatal, startup-only.
    Bind,
    /// The remote identity could not be dialed. Fatal, client-only.
    Dial,
    /// One inbound connection attempt failed its handshake. Recoverable,
    /// scoped to that attempt.
    Handshake,
    /// Accepting a further stream failed: the owning connection's session
    /// ends, nothing else.
    StreamAccept,
    /// The local target service was not reachable: one stream's forwarding
    /// ends, nothing else.
    TargetUnreachable,
    /// A directional copy hit an I/O error; the composite forwarding result
    /// reflects it only once both directions are terminal.
    DirectionalIo,
}

impl TunnelError {
    /// Whether this failure aborts the whole process. Only startup-level
    /// failures (identity, bind, dial) do.
    pub fn is_fatal(&self) -> (r: bool)
        ensures
            r == (self is IdentityIo || self is Bind || self is Dial),
    {
        match self {
            TunnelError::IdentityIo { .. } => true,
            TunnelError::Bind => true,
            TunnelError::Dial => true,
            _ => false,
        }
    }
}

} // verus!
