//! Client-side control: one dialed connection, one stream, one forwarding
//! pair between that stream and the process's standard input/output.

use vstd::prelude::*;

use crate::errors::TunnelError;
use crate::forward::{Forwarder, Policy};

verus! {

/// How a dial discovers the remote endpoint.
#[derive(Clone, Copy, PartialEq, Eq, Structural, Debug)]
pub enum DiscoveryChoice {
    /// No relay endpoints were supplied: the transport's default discovery.
    DefaultDiscovery,
    /// Relay endpoints were supplied: dial through exactly those.
    StaticRelays,
}

/// Which discovery to configure for a dial: supplied relay endpoints take
/// over; an empty relay list means default discovery.
pub fn choose_discovery(relay_count: usize) -> (c: DiscoveryChoice)
    ensures
        relay_count == 0 ==> c is DefaultDiscovery,
        relay_count > 0 ==> c is StaticRelays,
{
    if relay_count == 0 {
        DiscoveryChoice::DefaultDiscovery
    } else {
        DiscoveryChoice::StaticRelays
    }
}

/// The client's one forwarding pair, once the outcome of dialing the remote
/// identity and opening the one stream is known. Dial failure is fatal and
/// reported to the caller. On success the client bridges its standard
/// input/output to the stream under the race policy: it completes as soon as
/// either direction ends, so the process exits promptly once its local input
/// is exhausted.
pub fn after_dial(dialed: bool) -> (r: Result<Forwarder, TunnelError>)
    ensures
        dialed ==> (r matches Ok(f) && f.is_initial(Policy::RaceEither)),
        !dialed ==> (r matches Err(e) && e is Dial),
{
    if dialed {
        Ok(Forwarder::new(Policy::RaceEither))
    } else {
        Err(TunnelError::Dial)
    }
}

} // verus!
