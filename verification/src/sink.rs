//! The shared forwarding sink, as consumed by the workers.
//!
//! Exactly one sink exists per process; every worker's background reader
//! pushes the bytes it received into it.  The sink is an external
//! capability: implementations live outside the library (the local
//! network stack, or a recording stub in tests), so its methods carry no
//! contract.  The workers promise nothing about what the sink does with a
//! payload, only about when and with which arguments they hand one over,
//! and that a sink failure never stops a reader loop.

use vstd::prelude::*;

use crate::endpoint::Ipv4Endpoint;

verus! {

/// A forwarding call was rejected by the sink.  The workers treat this as
/// non-fatal: the payload is lost and the loop goes on.
#[derive(Clone, Copy, Debug, PartialEq, Eq, Structural)]
pub struct SinkError;

/// Forwards transport-layer payload back into the local network stack.
///
/// Implementations must be safe to call from several worker threads; the
/// callers hand over one payload per call and each call owns the sink
/// exclusively for its duration.
pub trait Forward {
    /// Forwards a TCP payload received from `dst`, on behalf of the local
    /// flow with source port `src_port`.
    fn forward_tcp(&mut self, dst: Ipv4Endpoint, src_port: u16, payload: &[u8]) -> Result<(), SinkError>;

    /// Forwards a UDP payload received from `dst`, on behalf of the local
    /// flow with source port `src_port`.
    fn forward_udp(&mut self, dst: Ipv4Endpoint, src_port: u16, payload: &[u8]) -> Result<(), SinkError>;
}

} // verus!
