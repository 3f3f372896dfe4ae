//! Traffic-relay core for a SOCKS5 tunneling client.
//!
//! Each relayed flow is represented by a worker: a stream worker for
//! TCP-like flows and a datagram worker for UDP-like flows.  A worker's
//! background reader repeatedly takes the outcome of one blocking read
//! (a payload, a timed-out error, or a fatal error) and must decide what
//! to do with it: forward the bytes to the shared sink, wait and retry,
//! ignore a spurious zero-length read, or close the worker.  Those
//! decisions are the state machines verified here; the surrounding
//! threads and sockets live outside the library and drive them.

use vstd::prelude::*;

pub mod datagram;
pub mod endpoint;
pub mod sink;
pub mod stream;

verus! {

/// Size of a reader's reusable buffer: the maximum transport unit
/// representable in 16 bits.
pub const READ_BUFFER_SIZE: usize = 65535;

/// Milliseconds a reader waits after a timed-out read before it tries again.
pub const TIMEDOUT_WAIT: u64 = 20;

/// Consecutive zero-length reads a stream worker tolerates before it treats
/// them as connection termination and closes itself.  A single zero-length
/// read is a known transport quirk, not reliable evidence of a closed
/// connection, so this is a heuristic threshold rather than a protocol rule.
pub const ZEROES_BEFORE_CLOSE: u64 = 3;

/// What the reader loop does after one event has been handled.
#[derive(Clone, Copy, Debug, PartialEq, Eq, Structural)]
pub enum LoopNext {
    /// Go straight to the next blocking read.
    Proceed,
    /// Sleep for `millis` milliseconds, then read again.
    Wait { millis: u64 },
    /// Leave the loop: the worker is closed.
    Stop,
}

} // verus!
