//! The stream (TCP-like) worker's state machine.
//!
//! The worker owns one duplex stream negotiated through the SOCKS5 proxy
//! and one background reader.  The reader repeatedly performs a blocking
//! read and hands the outcome, as a [`ReadEvent`], to [`StreamWorker::handle_read`],
//! which decides what to do and how the worker's state changes.  The
//! decision rules:
//!
//! - a payload is forwarded to the sink, tagged with the worker's
//!   destination and source port, unless the worker was closed while the
//!   read was in flight;
//! - a zero-length read is counted but not forwarded; reaching
//!   [`ZEROES_BEFORE_CLOSE`](crate::ZEROES_BEFORE_CLOSE) consecutive
//!   zero-length reads closes the worker (a heuristic for connection
//!   termination), while any payload resets the count;
//! - a timed-out read is transient: wait
//!   [`TIMEDOUT_WAIT`](crate::TIMEDOUT_WAIT) milliseconds and read again,
//!   never close;
//! - any other read error is terminal: close the worker and stop.

use vstd::prelude::*;

use crate::endpoint::Ipv4Endpoint;
use crate::sink::Forward;
use crate::LoopNext;
use crate::TIMEDOUT_WAIT;
use crate::ZEROES_BEFORE_CLOSE;

verus! {

/// The outcome of one blocking read on the worker's stream.
#[derive(Debug, PartialEq, Eq)]
pub enum ReadEvent {
    /// The read returned; `payload` holds the bytes read (possibly none).
    Data { payload: Vec<u8> },
    /// The read failed with a timed-out error.
    TimedOut,
    /// The read failed with any other error.
    Failed,
}

/// What the reader must do with one read outcome.
#[derive(Debug, PartialEq, Eq)]
pub enum StreamAction {
    /// Hand `payload` to the sink as a TCP payload from `dst` for the local
    /// flow with source port `src_port`.
    Forward { dst: Ipv4Endpoint, src_port: u16, payload: Vec<u8> },
    /// Forward nothing and keep reading (a tolerated zero-length read).
    Skip,
    /// Sleep for `wait_millis` milliseconds, then read again.
    Retry { wait_millis: u64 },
    /// Leave the loop: the worker is closed.
    Exit,
}

/// The stream worker's state, as the background reader and the owning
/// thread observe it.  `closed` is the single source of truth for whether
/// the worker is still usable and whether the reader loop must stop.
#[derive(Clone, Copy, Debug, PartialEq, Eq, Structural)]
pub struct StreamWorker {
    /// The peer this flow communicates with; fixed at connect time.
    pub dst: Ipv4Endpoint,
    /// The logical local source port of this flow; fixed at connect time.
    pub src_port: u16,
    /// Whether the worker is closed.  Moves from false to true at most
    /// once and never reverts.
    pub closed: bool,
    /// How many consecutive zero-length reads were seen since the last
    /// payload.
    pub zero_reads: u64,
}

/// The worker's state after one read outcome has been handled.
pub open spec fn stream_next(s: StreamWorker, e: ReadEvent) -> StreamWorker {
    match e {
        ReadEvent::TimedOut => s,
        ReadEvent::Failed => StreamWorker { closed: true, ..s },
        ReadEvent::Data { payload } => {
            if s.closed {
                s
            } else if payload@.len() == 0 {
                if s.zero_reads + 1 >= ZEROES_BEFORE_CLOSE {
                    StreamWorker { closed: true, zero_reads: (s.zero_reads + 1) as u64, ..s }
                } else {
                    StreamWorker { zero_reads: (s.zero_reads + 1) as u64, ..s }
                }
            } else {
                StreamWorker { zero_reads: 0, ..s }
            }
        }
    }
}

/// What the reader does with one read outcome.
pub open spec fn stream_action(s: StreamWorker, e: ReadEvent) -> StreamAction {
    match e {
        ReadEvent::TimedOut => StreamAction::Retry { wait_millis: TIMEDOUT_WAIT },
        ReadEvent::Failed => StreamAction::Exit,
        ReadEvent::Data { payload } => {
            if s.closed {
                StreamAction::Exit
            } else if payload@.len() == 0 {
                if s.zero_reads + 1 >= ZEROES_BEFORE_CLOSE {
                    StreamAction::Exit
                } else {
                    StreamAction::Skip
                }
            } else {
                StreamAction::Forward { dst: s.dst, src_port: s.src_port, payload }
            }
        }
    }
}

impl StreamWorker {
    /// A worker that is still open has not yet used up its zero-read
    /// budget; this keeps the counter from overflowing and is preserved
    /// by every transition.
    pub open spec fn wf(self) -> bool {
        !self.closed ==> self.zero_reads < ZEROES_BEFORE_CLOSE
    }

    /// The state of a freshly connected stream worker: open, with no
    /// zero-length read seen yet.
    pub fn new(dst: Ipv4Endpoint, src_port: u16) -> (w: StreamWorker)
        ensures
            w == (StreamWorker { dst, src_port, closed: false, zero_reads: 0 }),
            w.wf(),
    {
        StreamWorker { dst, src_port, closed: false, zero_reads: 0 }
    }

    /// Whether the worker is closed.
    pub fn is_closed(&self) -> (r: bool)
        ensures
            r == self.closed,
    {
        self.closed
    }

    /// Closes the worker.  Idempotent; changes nothing else.
    pub fn close(&mut self)
        ensures
            final(self).closed,
            final(self).dst == old(self).dst,
            final(self).src_port == old(self).src_port,
            final(self).zero_reads == old(self).zero_reads,
            final(self).wf(),
    {
        self.closed = true;
    }

    /// Handles the outcome of one blocking read: moves the worker to
    /// [`stream_next`] and returns exactly the action [`stream_action`]
    /// prescribes.
    pub fn handle_read(&mut self, event: ReadEvent) -> (action: StreamAction)
        requires
            old(self).wf(),
        ensures
            *final(self) == stream_next(*old(self), event),
            action == stream_action(*old(self), event),
            final(self).wf(),
    {
        match event {
            ReadEvent::TimedOut => StreamAction::Retry { wait_millis: TIMEDOUT_WAIT },
            ReadEvent::Failed => {
                self.closed = true;
                StreamAction::Exit
            }
            ReadEvent::Data { payload } => {
                if self.closed {
                    StreamAction::Exit
                } else if payload.len() == 0 {
                    self.zero_reads = self.zero_reads + 1;
                    if self.zero_reads >= ZEROES_BEFORE_CLOSE {
                        self.closed = true;
                        StreamAction::Exit
                    } else {
                        StreamAction::Skip
                    }
                } else {
                    self.zero_reads = 0;
                    StreamAction::Forward { dst: self.dst, src_port: self.src_port, payload }
                }
            }
        }
    }
}

/// Handles one read outcome end to end: advances the worker and, when the
/// action asks for it, forwards the payload to the sink.  The returned
/// control and the worker's new state do not depend on the sink's answer:
/// a forwarding failure loses one payload and nothing more.
pub fn process_read<F: Forward>(w: &mut StreamWorker, sink: &mut F, event: ReadEvent) -> (next: LoopNext)
    requires
        old(w).wf(),
    ensures
        *final(w) == stream_next(*old(w), event),
        final(w).wf(),
        next == stream_control(*old(w), event),
{
    let action = w.handle_read(event);
    match action {
        StreamAction::Forward { dst, src_port, payload } => {
            let _ = sink.forward_tcp(dst, src_port, payload.as_slice());
            LoopNext::Proceed
        }
        StreamAction::Skip => LoopNext::Proceed,
        StreamAction::Retry { wait_millis } => LoopNext::Wait { millis: wait_millis },
        StreamAction::Exit => LoopNext::Stop,
    }
}

/// The loop control that follows from [`stream_action`]: forwarded or
/// skipped payloads keep the loop running, a timed-out read waits, and
/// only a closed worker stops it.
pub open spec fn stream_control(s: StreamWorker, e: ReadEvent) -> LoopNext {
    match stream_action(s, e) {
        StreamAction::Forward { .. } => LoopNext::Proceed,
        StreamAction::Skip => LoopNext::Proceed,
        StreamAction::Retry { wait_millis } => LoopNext::Wait { millis: wait_millis },
        StreamAction::Exit => LoopNext::Stop,
    }
}

/// The worker's state after a whole sequence of read outcomes, oldest
/// first.
pub open spec fn stream_run(s: StreamWorker, events: Seq<ReadEvent>) -> StreamWorker
    decreases events.len(),
{
    if events.len() == 0 {
        s
    } else {
        stream_run(stream_next(s, events[0]), events.drop_first())
    }
}

/// Every event in the sequence is a zero-length read.
pub open spec fn all_zero_reads(events: Seq<ReadEvent>) -> bool {
    forall|i: int| 0 <= i < events.len() ==>
        ((#[trigger] events[i]) matches ReadEvent::Data { payload } && payload@.len() == 0)
}

/// No read outcome reopens a closed stream worker: `closed` moves from
/// false to true at most once and never reverts.
pub proof fn lemma_stream_closed_monotonic(s: StreamWorker, e: ReadEvent)
    ensures
        s.closed ==> stream_next(s, e).closed,
{
}

/// Well-formedness survives every read outcome.
pub proof fn lemma_stream_next_wf(s: StreamWorker, e: ReadEvent)
    ensures
        s.wf() ==> stream_next(s, e).wf(),
{
}

/// A closed stream worker stays closed over any sequence of read
/// outcomes.
pub proof fn lemma_stream_run_closed_monotonic(s: StreamWorker, events: Seq<ReadEvent>)
    ensures
        s.closed ==> stream_run(s, events).closed,
    decreases events.len(),
{
    if events.len() > 0 {
        lemma_stream_closed_monotonic(s, events[0]);
        lemma_stream_run_closed_monotonic(stream_next(s, events[0]), events.drop_first());
    }
}

/// Running one more event is the same as running the sequence and then
/// that event.
pub proof fn lemma_stream_run_push(s: StreamWorker, events: Seq<ReadEvent>, e: ReadEvent)
    ensures
        stream_run(s, events.push(e)) == stream_next(stream_run(s, events), e),
    decreases events.len(),
{
    if events.len() == 0 {
        assert(events.push(e)[0] == e);
        assert(events.push(e).drop_first() =~= Seq::<ReadEvent>::empty());
        assert(stream_run(s, events.push(e))
            == stream_run(stream_next(s, e), events.push(e).drop_first()));
        assert(stream_run(stream_next(s, e), Seq::<ReadEvent>::empty()) == stream_next(s, e));
    } else {
        assert(events.push(e)[0] == events[0]);
        assert(events.push(e).drop_first() =~= events.drop_first().push(e));
        lemma_stream_run_push(stream_next(s, events[0]), events.drop_first(), e);
        assert(stream_run(s, events.push(e))
            == stream_run(stream_next(s, events[0]), events.drop_first().push(e)));
        assert(stream_run(s, events) == stream_run(stream_next(s, events[0]), events.drop_first()));
    }
}

/// Fewer consecutive zero-length reads than the worker's remaining
/// budget never close it: each one only raises the counter.
pub proof fn lemma_zero_reads_below_threshold(s: StreamWorker, zeros: Seq<ReadEvent>)
    requires
        !s.closed,
        all_zero_reads(zeros),
        s.zero_reads + zeros.len() < ZEROES_BEFORE_CLOSE,
    ensures
        !stream_run(s, zeros).closed,
        stream_run(s, zeros).zero_reads == s.zero_reads + zeros.len(),
        stream_run(s, zeros).dst == s.dst,
        stream_run(s, zeros).src_port == s.src_port,
    decreases zeros.len(),
{
    if zeros.len() > 0 {
        assert(zeros[0] matches ReadEvent::Data { payload } && payload@.len() == 0);
        lemma_zero_reads_below_threshold(stream_next(s, zeros[0]), zeros.drop_first());
    }
}

/// A payload after fewer zero-length reads than the worker's remaining
/// budget leaves it open and resets the zero-read count.
pub proof fn lemma_positive_read_resets(s: StreamWorker, zeros: Seq<ReadEvent>, data: ReadEvent)
    requires
        !s.closed,
        all_zero_reads(zeros),
        s.zero_reads + zeros.len() < ZEROES_BEFORE_CLOSE,
        data matches ReadEvent::Data { payload } && payload@.len() > 0,
    ensures
        !stream_run(s, zeros.push(data)).closed,
        stream_run(s, zeros.push(data)).zero_reads == 0,
        stream_run(s, zeros.push(data)).dst == s.dst,
        stream_run(s, zeros.push(data)).src_port == s.src_port,
{
    lemma_zero_reads_below_threshold(s, zeros);
    lemma_stream_run_push(s, zeros, data);
}

/// Exactly enough consecutive zero-length reads to exhaust the worker's
/// budget close it, without any read error.
pub proof fn lemma_zero_reads_reach_threshold(s: StreamWorker, zeros: Seq<ReadEvent>)
    requires
        !s.closed,
        all_zero_reads(zeros),
        s.zero_reads + zeros.len() == ZEROES_BEFORE_CLOSE,
        zeros.len() > 0,
    ensures
        stream_run(s, zeros).closed,
    decreases zeros.len(),
{
    assert(zeros[0] matches ReadEvent::Data { payload } && payload@.len() == 0);
    let s1 = stream_next(s, zeros[0]);
    if s1.closed {
        lemma_stream_run_closed_monotonic(s1, zeros.drop_first());
    } else {
        lemma_zero_reads_reach_threshold(s1, zeros.drop_first());
    }
}

/// A timed-out read is transient: it never closes the worker, changes
/// nothing, and the prescribed action is to wait briefly and try again.
pub proof fn lemma_timed_out_is_transient(s: StreamWorker)
    ensures
        stream_next(s, ReadEvent::TimedOut) == s,
        stream_action(s, ReadEvent::TimedOut) == (StreamAction::Retry { wait_millis: TIMEDOUT_WAIT }),
{
}

} // verus!
