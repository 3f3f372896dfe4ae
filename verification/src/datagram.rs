//! The datagram (UDP-like) worker's state machine.
//!
//! The worker owns one datagram channel associated with a SOCKS5 relay
//! (the relay header is added and stripped by the collaborator, so the
//! worker only ever sees plain peer-address/payload pairs) and one
//! background reader.  The reader hands the outcome of each blocking
//! receive, as a [`RecvEvent`], to [`DatagramWorker::handle_recv`].  The
//! decision rules:
//!
//! - a received datagram is forwarded to the sink, tagged with the peer
//!   it came from and with the *current* source port — the port is read
//!   fresh at forward time, so rebinding it takes effect on the very next
//!   packet without recreating the channel — unless the worker was closed
//!   while the receive was in flight;
//! - a timed-out receive is transient: wait
//!   [`TIMEDOUT_WAIT`](crate::TIMEDOUT_WAIT) milliseconds and receive
//!   again, never close;
//! - any other receive error is terminal: close the worker and stop.

use vstd::prelude::*;

use crate::endpoint::Ipv4Endpoint;
use crate::sink::Forward;
use crate::LoopNext;
use crate::TIMEDOUT_WAIT;

verus! {

/// The outcome of one blocking receive on the worker's channel.
#[derive(Debug, PartialEq, Eq)]
pub enum RecvEvent {
    /// A datagram arrived from `peer` carrying `payload`.
    Datagram { peer: Ipv4Endpoint, payload: Vec<u8> },
    /// The receive failed with a timed-out error.
    TimedOut,
    /// The receive failed with any other error.
    Failed,
}

/// What the reader must do with one receive outcome.
#[derive(Debug, PartialEq, Eq)]
pub enum DatagramAction {
    /// Hand `payload` to the sink as a UDP payload from `dst` for the
    /// local flow with source port `src_port`.
    Forward { dst: Ipv4Endpoint, src_port: u16, payload: Vec<u8> },
    /// Sleep for `wait_millis` milliseconds, then receive again.
    Retry { wait_millis: u64 },
    /// Leave the loop: the worker is closed.
    Exit,
}

/// The datagram worker's state.  Unlike a stream worker's destination,
/// the logical peer varies per datagram; what the worker keeps is the
/// local port its channel was bound on and the rebindable source port.
#[derive(Clone, Copy, Debug, PartialEq, Eq, Structural)]
pub struct DatagramWorker {
    /// The logical local source port this flow currently represents.
    /// May be rebound many times during the worker's life.
    pub src_port: u16,
    /// The local port the datagram channel was bound on; fixed at bind
    /// time.
    pub local_port: u16,
    /// Whether the worker is closed.  Moves from false to true at most
    /// once and never reverts.
    pub closed: bool,
}

/// The worker's state after one receive outcome has been handled.
pub open spec fn datagram_next(s: DatagramWorker, e: RecvEvent) -> DatagramWorker {
    match e {
        RecvEvent::TimedOut => s,
        RecvEvent::Failed => DatagramWorker { closed: true, ..s },
        RecvEvent::Datagram { .. } => s,
    }
}

/// What the reader does with one receive outcome.  A forwarded datagram
/// carries the peer it came from and the source port the worker holds at
/// this very moment.
pub open spec fn datagram_action(s: DatagramWorker, e: RecvEvent) -> DatagramAction {
    match e {
        RecvEvent::TimedOut => DatagramAction::Retry { wait_millis: TIMEDOUT_WAIT },
        RecvEvent::Failed => DatagramAction::Exit,
        RecvEvent::Datagram { peer, payload } => {
            if s.closed {
                DatagramAction::Exit
            } else {
                DatagramAction::Forward { dst: peer, src_port: s.src_port, payload }
            }
        }
    }
}

/// The same worker with its source port rebound.
pub open spec fn with_src_port(s: DatagramWorker, port: u16) -> DatagramWorker {
    DatagramWorker { src_port: port, ..s }
}

impl DatagramWorker {
    /// The state of a freshly bound datagram worker: open, representing
    /// `src_port`, bound on `local_port`.
    pub fn new(src_port: u16, local_port: u16) -> (w: DatagramWorker)
        ensures
            w == (DatagramWorker { src_port, local_port, closed: false }),
    {
        DatagramWorker { src_port, local_port, closed: false }
    }

    /// Whether the worker is closed.
    pub fn is_closed(&self) -> (r: bool)
        ensures
            r == self.closed,
    {
        self.closed
    }

    /// Closes the worker.  Idempotent; changes nothing else.
    pub fn close(&mut self)
        ensures
            final(self).closed,
            final(self).src_port == old(self).src_port,
            final(self).local_port == old(self).local_port,
    {
        self.closed = true;
    }

    /// The source port this flow currently represents.
    pub fn get_src_port(&self) -> (port: u16)
        ensures
            port == self.src_port,
    {
        self.src_port
    }

    /// Rebinds the source port.  Takes effect for every datagram handled
    /// after this call; changes nothing else.
    pub fn set_src_port(&mut self, src_port: u16)
        ensures
            *final(self) == with_src_port(*old(self), src_port),
    {
        self.src_port = src_port;
    }

    /// Handles the outcome of one blocking receive: moves the worker to
    /// [`datagram_next`] and returns exactly the action
    /// [`datagram_action`] prescribes.
    pub fn handle_recv(&mut self, event: RecvEvent) -> (action: DatagramAction)
        ensures
            *final(self) == datagram_next(*old(self), event),
            action == datagram_action(*old(self), event),
    {
        match event {
            RecvEvent::TimedOut => DatagramAction::Retry { wait_millis: TIMEDOUT_WAIT },
            RecvEvent::Failed => {
                self.closed = true;
                DatagramAction::Exit
            }
            RecvEvent::Datagram { peer, payload } => {
                if self.closed {
                    DatagramAction::Exit
                } else {
                    DatagramAction::Forward { dst: peer, src_port: self.src_port, payload }
                }
            }
        }
    }
}

/// Handles one receive outcome end to end: advances the worker and, when
/// the action asks for it, forwards the payload to the sink.  The
/// returned control and the worker's new state do not depend on the
/// sink's answer: a forwarding failure loses one datagram and nothing
/// more.
pub fn process_recv<F: Forward>(w: &mut DatagramWorker, sink: &mut F, event: RecvEvent) -> (next: LoopNext)
    ensures
        *final(w) == datagram_next(*old(w), event),
        next == datagram_control(*old(w), event),
{
    let action = w.handle_recv(event);
    match action {
        DatagramAction::Forward { dst, src_port, payload } => {
            let _ = sink.forward_udp(dst, src_port, payload.as_slice());
            LoopNext::Proceed
        }
        DatagramAction::Retry { wait_millis } => LoopNext::Wait { millis: wait_millis },
        DatagramAction::Exit => LoopNext::Stop,
    }
}

/// The loop control that follows from [`datagram_action`]: forwarded
/// datagrams keep the loop running, a timed-out receive waits, and only a
/// closed worker stops it.
pub open spec fn datagram_control(s: DatagramWorker, e: RecvEvent) -> LoopNext {
    match datagram_action(s, e) {
        DatagramAction::Forward { .. } => LoopNext::Proceed,
        DatagramAction::Retry { wait_millis } => LoopNext::Wait { millis: wait_millis },
        DatagramAction::Exit => LoopNext::Stop,
    }
}

/// No receive outcome and no source-port rebinding reopens a closed
/// datagram worker: `closed` moves from false to true at most once and
/// never reverts.
pub proof fn lemma_datagram_closed_monotonic(s: DatagramWorker, e: RecvEvent, port: u16)
    ensures
        s.closed ==> datagram_next(s, e).closed,
        s.closed == with_src_port(s, port).closed,
{
}

/// A timed-out receive is transient: it never closes the worker, changes
/// nothing, and the prescribed action is to wait briefly and try again.
pub proof fn lemma_recv_timed_out_is_transient(s: DatagramWorker)
    ensures
        datagram_next(s, RecvEvent::TimedOut) == s,
        datagram_action(s, RecvEvent::TimedOut) == (DatagramAction::Retry { wait_millis: TIMEDOUT_WAIT }),
{
}

/// Rebinding the source port between two inbound datagrams makes the
/// second forwarded call carry the new port while the first carried the
/// old one; each datagram is tagged with the port current at the moment
/// it is handled.
pub proof fn lemma_src_port_rebinding(s: DatagramWorker, e1: RecvEvent, port: u16, e2: RecvEvent)
    requires
        !s.closed,
        e1 is Datagram,
        e2 is Datagram,
    ensures
        datagram_action(s, e1)
            == (DatagramAction::Forward { dst: e1->peer, src_port: s.src_port, payload: e1->payload }),
        datagram_action(with_src_port(datagram_next(s, e1), port), e2)
            == (DatagramAction::Forward { dst: e2->peer, src_port: port, payload: e2->payload }),
{
}

} // verus!
