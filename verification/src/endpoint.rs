//! Plain representation of an IPv4 peer address.
//!
//! The workers only ever tag payloads with a peer address; they never parse
//! or transform one.  Holding the address as a 32-bit number plus a port
//! keeps every field a plain value the contracts can speak about, and the
//! unverified edge converts to and from the host's socket-address type.

use vstd::prelude::*;

verus! {

/// An IPv4 address (as its 32-bit big-endian numeric value) and a port.
#[derive(Clone, Copy, Debug, PartialEq, Eq, Hash, Structural)]
pub struct Ipv4Endpoint {
    /// The 32-bit value of the IPv4 address, most significant octet first.
    pub addr: u32,
    /// The port number.
    pub port: u16,
}

impl Ipv4Endpoint {
    /// Builds an endpoint from an address value and a port.
    pub fn new(addr: u32, port: u16) -> (ep: Ipv4Endpoint)
        ensures
            ep == (Ipv4Endpoint { addr, port }),
    {
        Ipv4Endpoint { addr, port }
    }
}

} // verus!
