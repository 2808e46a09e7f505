//! Core of a round-trip latency probe: a codec that stamps sequence numbers
//! into fixed-size payloads, a table of in-flight probes, and the state
//! machines of the two probing modes (pipelined and strictly alternating).
//!
//! The transport itself (a connected, order-preserving byte stream whose peer
//! echoes every byte back) is a collaborator: callers write the payloads this
//! library produces, read the echoes, and hand them back together with a
//! monotonic timestamp in nanoseconds.

use vstd::prelude::*;

pub mod codec;
pub mod pending;
pub mod pipeline;
pub mod waitmode;

verus! {

/// Why a probe run stops. Every failure is fatal: the tool measures a
/// cooperative target and does not retry or degrade.
#[derive(Clone, Copy, Debug, PartialEq, Eq, Structural)]
pub enum PingError {
    /// The configured payload size cannot hold an eight-byte sequence number.
    PayloadTooSmall,
    /// The transport failed or the peer closed the stream.
    ConnectionClosed,
    /// The peer echoed a sequence number that is not currently pending:
    /// either it was never sent or it was already matched once.
    ProtocolViolation(u64),
}

/// One completed probe: its sequence number, the payload size of the run,
/// and the measured round-trip time in nanoseconds.
#[derive(Clone, Copy, Debug, PartialEq, Eq, Structural)]
pub struct Measurement {
    pub seq: u64,
    pub size: usize,
    pub elapsed_ns: u64,
}

/// Nanoseconds elapsed between a send timestamp and a later reading of the
/// same monotonic clock; a reading behind the send timestamp yields zero
/// rather than wrapping around.
pub open spec fn elapsed_since(sent_ns: u64, now_ns: u64) -> u64 {
    if now_ns >= sent_ns {
        (now_ns - sent_ns) as u64
    } else {
        0
    }
}

/// Computes `elapsed_since` on the running clock values.
pub fn elapsed_ns(sent_ns: u64, now_ns: u64) -> (r: u64)
    ensures
        r == elapsed_since(sent_ns, now_ns),
{
    if now_ns >= sent_ns {
        now_ns - sent_ns
    } else {
        0
    }
}

/// What the receiving side of a run observes on the transport: either an
/// echoed payload or the end of the stream.
pub enum StreamEvent {
    Echo(Vec<u8>),
    Closed,
}

} // verus!
