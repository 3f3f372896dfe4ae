use socks_relay::endpoint::Ipv4Endpoint;
use socks_relay::sink::{Forward, SinkError};
use socks_relay::stream::{process_read, ReadEvent, StreamAction, StreamWorker};
use socks_relay::{LoopNext, TIMEDOUT_WAIT, ZEROES_BEFORE_CLOSE};

/// A sink that records every forwarding call and can be told to reject
/// them all.
struct RecordingSink {
    tcp_calls: Vec<(Ipv4Endpoint, u16, Vec<u8>)>,
    udp_calls: Vec<(Ipv4Endpoint, u16, Vec<u8>)>,
    fail: bool,
}

impl RecordingSink {
    fn new(fail: bool) -> RecordingSink {
        RecordingSink { tcp_calls: Vec::new(), udp_calls: Vec::new(), fail }
    }
}

impl Forward for RecordingSink {
    fn forward_tcp(&mut self, dst: Ipv4Endpoint, src_port: u16, payload: &[u8]) -> Result<(), SinkError> {
        self.tcp_calls.push((dst, src_port, payload.to_vec()));
        if self.fail { Err(SinkError) } else { Ok(()) }
    }

    fn forward_udp(&mut self, dst: Ipv4Endpoint, src_port: u16, payload: &[u8]) -> Result<(), SinkError> {
        self.udp_calls.push((dst, src_port, payload.to_vec()));
        if self.fail { Err(SinkError) } else { Ok(()) }
    }
}

fn peer() -> Ipv4Endpoint {
    Ipv4Endpoint::new(0x0A000001, 8080)
}

#[test]
fn endpoint_holds_its_fields() {
    let ep = Ipv4Endpoint::new(0x7F000001, 1080);
    assert_eq!(ep.addr, 0x7F000001);
    assert_eq!(ep.port, 1080);
    assert_eq!(ep, Ipv4Endpoint::new(0x7F000001, 1080));
    assert_ne!(ep, Ipv4Endpoint::new(0x7F000001, 1081));
}

#[test]
fn fresh_stream_worker_is_open() {
    let w = StreamWorker::new(peer(), 4000);
    assert!(!w.is_closed());
    assert_eq!(w.zero_reads, 0);
    assert_eq!(w.dst, peer());
    assert_eq!(w.src_port, 4000);
}

#[test]
fn close_is_sticky_and_idempotent() {
    let mut w = StreamWorker::new(peer(), 4000);
    w.close();
    assert!(w.is_closed());
    w.close();
    assert!(w.is_closed());
    // No later event reopens a closed worker.
    let action = w.handle_read(ReadEvent::Data { payload: vec![1, 2, 3] });
    assert_eq!(action, StreamAction::Exit);
    assert!(w.is_closed());
}

#[test]
fn payload_is_forwarded_with_its_tags() {
    let mut w = StreamWorker::new(peer(), 4000);
    let action = w.handle_read(ReadEvent::Data { payload: vec![9, 8, 7] });
    assert_eq!(
        action,
        StreamAction::Forward { dst: peer(), src_port: 4000, payload: vec![9, 8, 7] }
    );
    assert!(!w.is_closed());
}

#[test]
fn zero_reads_below_threshold_keep_the_worker_open() {
    let mut w = StreamWorker::new(peer(), 4000);
    for i in 0u64..(ZEROES_BEFORE_CLOSE - 1) {
        let action = w.handle_read(ReadEvent::Data { payload: Vec::new() });
        assert_eq!(action, StreamAction::Skip);
        assert!(!w.is_closed());
        assert_eq!(w.zero_reads, i + 1);
    }
    // A payload resets the count.
    let action = w.handle_read(ReadEvent::Data { payload: vec![1] });
    assert!(matches!(action, StreamAction::Forward { .. }));
    assert!(!w.is_closed());
    assert_eq!(w.zero_reads, 0);
}

#[test]
fn zero_reads_at_threshold_close_the_worker() {
    let mut w = StreamWorker::new(peer(), 4000);
    for _ in 0u64..(ZEROES_BEFORE_CLOSE - 1) {
        w.handle_read(ReadEvent::Data { payload: Vec::new() });
        assert!(!w.is_closed());
    }
    let action = w.handle_read(ReadEvent::Data { payload: Vec::new() });
    assert_eq!(action, StreamAction::Exit);
    assert!(w.is_closed());
}

#[test]
fn timed_out_read_retries_and_never_closes() {
    let mut w = StreamWorker::new(peer(), 4000);
    let action = w.handle_read(ReadEvent::TimedOut);
    assert_eq!(action, StreamAction::Retry { wait_millis: TIMEDOUT_WAIT });
    assert!(!w.is_closed());
    assert_eq!(w.zero_reads, 0);
}

#[test]
fn fatal_read_error_closes_the_worker() {
    let mut w = StreamWorker::new(peer(), 4000);
    let action = w.handle_read(ReadEvent::Failed);
    assert_eq!(action, StreamAction::Exit);
    assert!(w.is_closed());
}

#[test]
fn forwarding_failure_does_not_stop_the_loop() {
    let mut w = StreamWorker::new(peer(), 4000);
    let mut sink = RecordingSink::new(true);
    let next = process_read(&mut w, &mut sink, ReadEvent::Data { payload: vec![5, 5] });
    assert_eq!(next, LoopNext::Proceed);
    assert!(!w.is_closed());
    assert_eq!(sink.tcp_calls.len(), 1);
}

#[test]
fn echo_then_shutdown_forwards_once_and_closes() {
    // A proxy stub echoes 10 bytes, then only zero-length reads arrive:
    // exactly one forwarded call of those 10 bytes, then the worker
    // closes within one zero-read threshold window.
    let mut w = StreamWorker::new(peer(), 4000);
    let mut sink = RecordingSink::new(false);
    let echoed: Vec<u8> = vec![0, 1, 2, 3, 4, 5, 6, 7, 8, 9];

    let next = process_read(&mut w, &mut sink, ReadEvent::Data { payload: echoed.clone() });
    assert_eq!(next, LoopNext::Proceed);

    let mut zeros: u64 = 0;
    while !w.is_closed() {
        process_read(&mut w, &mut sink, ReadEvent::Data { payload: Vec::new() });
        zeros += 1;
        assert!(zeros <= ZEROES_BEFORE_CLOSE);
    }
    assert_eq!(zeros, ZEROES_BEFORE_CLOSE);
    assert_eq!(sink.tcp_calls.len(), 1);
    assert_eq!(sink.tcp_calls[0], (peer(), 4000, echoed));
    assert_eq!(sink.udp_calls.len(), 0);
}

#[test]
fn no_forwarding_after_close_was_requested() {
    // The read was already in flight when close() was called: the bytes
    // must not be forwarded.
    let mut w = StreamWorker::new(peer(), 4000);
    let mut sink = RecordingSink::new(false);
    w.close();
    let next = process_read(&mut w, &mut sink, ReadEvent::Data { payload: vec![1, 2] });
    assert_eq!(next, LoopNext::Stop);
    assert_eq!(sink.tcp_calls.len(), 0);
}
