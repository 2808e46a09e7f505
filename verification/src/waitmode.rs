//! Wait-mode probe engine: one probe at a time. Send and receive strictly
//! alternate, so at most one probe is ever outstanding and no shared table is
//! needed — the single send timestamp is the whole in-flight state. The echo
//! is not decoded: with one probe outstanding on an echoing peer, the bytes
//! that come back can only belong to it.

use vstd::prelude::*;
use crate::codec;
use crate::{elapsed_ns, elapsed_since, Measurement, PingError, StreamEvent};

verus! {

/// State of one wait-mode run: the sequence number of the current probe, the
/// fixed payload size, and the send timestamp of the outstanding probe, if
/// one is out.
pub struct WaitRun {
    next_seq: u64,
    size: usize,
    outstanding: Option<u64>,
}

/// How many probes a wait-mode run has outstanding.
pub open spec fn outstanding_count(w: WaitRun) -> nat {
    if w.outstanding() is Some {
        1nat
    } else {
        0nat
    }
}

/// Sending is allowed only while no probe is outstanding.
pub open spec fn can_send(w: WaitRun) -> bool {
    w.outstanding() is None
}

/// Receiving an echo is meaningful only while a probe is outstanding.
pub open spec fn can_receive(w: WaitRun) -> bool {
    w.outstanding() is Some
}

/// A sequence number incremented with wraparound: after exhausting all
/// sixty-four-bit values the count starts over at zero.
pub open spec fn wrapping_inc(n: u64) -> u64 {
    if n == u64::MAX {
        0
    } else {
        (n + 1) as u64
    }
}

impl WaitRun {
    /// The sequence number of the current probe.
    pub closed spec fn next(self) -> u64 {
        self.next_seq
    }

    /// The payload size, fixed for the lifetime of the run.
    pub closed spec fn size(self) -> usize {
        self.size
    }

    /// The send timestamp of the outstanding probe, if one is out.
    pub closed spec fn outstanding(self) -> Option<u64> {
        self.outstanding
    }

    /// A run is well formed when its payloads can hold a sequence number.
    pub open spec fn wf(self) -> bool {
        self.size() >= 8
    }

    /// Starts a wait-mode run: nothing outstanding, the first probe will
    /// carry sequence number zero. A payload size that cannot hold a
    /// sequence number is rejected before anything is sent.
    pub fn new(size: usize) -> (r: Result<WaitRun, PingError>)
        ensures
            size >= 8 ==> {
                &&& r is Ok
                &&& r->Ok_0.wf()
                &&& r->Ok_0.next() == 0
                &&& r->Ok_0.size() == size
                &&& r->Ok_0.outstanding() is None
            },
            size < 8 ==> r == Result::<WaitRun, PingError>::Err(PingError::PayloadTooSmall),
    {
        if size < 8 {
            return Err(PingError::PayloadTooSmall);
        }
        Ok(WaitRun { next_seq: 0, size, outstanding: None })
    }

    /// The sequence number of the current probe.
    pub fn seq(&self) -> (r: u64)
        ensures
            r == self.next(),
    {
        self.next_seq
    }

    /// The payload size of the run.
    pub fn payload_size(&self) -> (r: usize)
        ensures
            r == self.size(),
    {
        self.size
    }

    /// Whether a probe is out and its echo still awaited. A caller must see
    /// this return false before it may send again.
    pub fn has_outstanding(&self) -> (r: bool)
        ensures
            r == (self.outstanding() is Some),
    {
        self.outstanding.is_some()
    }

    /// Stamps the current sequence number into a fresh payload and notes the
    /// send timestamp. Only legal while nothing is outstanding: wait mode
    /// never has two probes out, so a second send must wait for the echo.
    pub fn send_step(&mut self, now_ns: u64) -> (payload: Vec<u8>)
        requires
            old(self).wf(),
            can_send(*old(self)),
        ensures
            final(self).wf(),
            final(self).size() == old(self).size(),
            final(self).next() == old(self).next(),
            final(self).outstanding() == Some(now_ns),
            codec::encodes(payload@, old(self).next(), old(self).size() as int),
    {
        let payload = codec::encode(self.next_seq, self.size).unwrap();
        self.outstanding = Some(now_ns);
        payload
    }

    /// What the blocking read after a send produced. An echo completes the
    /// round trip: the measurement carries the current sequence number and
    /// the time elapsed since the send, nothing is outstanding any more, and
    /// the run moves to the next sequence number (wrapping around). The end
    /// of the stream is a fatal connection failure and changes nothing.
    pub fn receive(&mut self, ev: StreamEvent, now_ns: u64) -> (r: Result<Measurement, PingError>)
        requires
            old(self).wf(),
            ev is Echo ==> can_receive(*old(self)),
        ensures
            final(self).wf(),
            final(self).size() == old(self).size(),
            ev is Closed ==> {
                &&& r == Result::<Measurement, PingError>::Err(PingError::ConnectionClosed)
                &&& final(self).next() == old(self).next()
                &&& final(self).outstanding() == old(self).outstanding()
            },
            ev is Echo ==> {
                &&& r is Ok
                &&& r->Ok_0.seq == old(self).next()
                &&& r->Ok_0.size == old(self).size()
                &&& r->Ok_0.elapsed_ns == elapsed_since(old(self).outstanding()->Some_0, now_ns)
                &&& final(self).outstanding() is None
                &&& final(self).next() == wrapping_inc(old(self).next())
            },
    {
        match ev {
            StreamEvent::Closed => Err(PingError::ConnectionClosed),
            StreamEvent::Echo(_) => {
                let sent_ns = self.outstanding.unwrap();
                self.outstanding = None;
                let m = Measurement {
                    seq: self.next_seq,
                    size: self.size,
                    elapsed_ns: elapsed_ns(sent_ns, now_ns),
                };
                self.next_seq = if self.next_seq == u64::MAX {
                    0
                } else {
                    self.next_seq + 1
                };
                Ok(m)
            },
        }
    }
}

/// Wait mode keeps at most one probe outstanding at any instant, and sends
/// and receives strictly alternate: a send is permitted exactly while nothing
/// is outstanding and leaves one probe out, and an echo is awaited exactly
/// while one probe is out and leaves none.
pub proof fn lemma_at_most_one_outstanding(w: WaitRun)
    ensures
        outstanding_count(w) <= 1,
        can_send(w) <==> outstanding_count(w) == 0,
        can_receive(w) <==> outstanding_count(w) == 1,
        can_send(w) <==> !can_receive(w),
{
}

} // verus!
