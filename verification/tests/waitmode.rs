use ping_core::waitmode::WaitRun;
use ping_core::{PingError, StreamEvent};

/// A transport stub that insists on strict alternation: it panics if a second
/// payload is written before the first one was read back.
struct StrictEchoStub {
    buffered: Option<Vec<u8>>,
    writes: usize,
    reads: usize,
}

impl StrictEchoStub {
    fn new() -> StrictEchoStub {
        StrictEchoStub { buffered: None, writes: 0, reads: 0 }
    }

    fn write(&mut self, payload: Vec<u8>) {
        assert!(
            self.buffered.is_none(),
            "a second write arrived before the previous echo was read"
        );
        self.writes += 1;
        self.buffered = Some(payload);
    }

    fn read(&mut self) -> Vec<u8> {
        self.reads += 1;
        self.buffered.take().expect("a read arrived with nothing written")
    }
}

#[test]
fn send_and_receive_strictly_alternate() {
    let mut run = WaitRun::new(64).unwrap();
    let mut stub = StrictEchoStub::new();
    for i in 0..10u64 {
        assert!(!run.has_outstanding());
        stub.write(run.send_step(i * 1000));
        assert!(run.has_outstanding());
        let echo = stub.read();
        let m = run.receive(StreamEvent::Echo(echo), i * 1000 + 250).unwrap();
        assert!(!run.has_outstanding());
        assert_eq!(m.seq, i);
        assert_eq!(m.size, 64);
        assert_eq!(m.elapsed_ns, 250);
    }
    assert_eq!(stub.writes, 10);
    assert_eq!(stub.reads, 10);
    assert_eq!(run.seq(), 10);
}

#[test]
fn sequence_numbers_count_up_from_zero() {
    let mut run = WaitRun::new(8).unwrap();
    assert_eq!(run.seq(), 0);
    assert_eq!(run.payload_size(), 8);
    let p = run.send_step(0);
    assert_eq!(p.len(), 8);
    assert_eq!(p, vec![0, 0, 0, 0, 0, 0, 0, 0]);
    run.receive(StreamEvent::Echo(p), 1).unwrap();
    assert_eq!(run.seq(), 1);
    let p = run.send_step(2);
    assert_eq!(p[0], 1);
    run.receive(StreamEvent::Echo(p), 3).unwrap();
    assert_eq!(run.seq(), 2);
}

#[test]
fn a_closed_stream_is_a_connection_failure() {
    let mut run = WaitRun::new(8).unwrap();
    let _ = run.send_step(5);
    let r = run.receive(StreamEvent::Closed, 9);
    assert_eq!(r, Err(PingError::ConnectionClosed));
    // The failure is fatal; nothing was matched.
    assert!(run.has_outstanding());
}

#[test]
fn wait_mode_rejects_payload_sizes_below_eight() {
    assert!(matches!(WaitRun::new(7), Err(PingError::PayloadTooSmall)));
    assert!(WaitRun::new(8).is_ok());
}

#[test]
fn wait_clock_reading_behind_the_send_yields_zero_elapsed() {
    let mut run = WaitRun::new(8).unwrap();
    let p = run.send_step(500);
    let m = run.receive(StreamEvent::Echo(p), 200).unwrap();
    assert_eq!(m.elapsed_ns, 0);
}
