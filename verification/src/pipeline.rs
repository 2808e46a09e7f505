//! Pipelined probe engine: many probes may be in flight at once. The sender
//! side stamps and records probes in strictly increasing sequence order; the
//! receiver side matches every echo against the Pending Table and turns it
//! into a measurement. The two sides share only that table, so a caller that
//! drives them from two flows of control guards the whole engine with mutual
//! exclusion and holds it only for the single step.

use vstd::prelude::*;
use crate::codec;
use crate::pending::PendingTable;
use crate::{elapsed_ns, elapsed_since, Measurement, PingError, StreamEvent};

verus! {

/// State of one pipelined run: the in-flight table, the next sequence number
/// to stamp, and the fixed payload size of the run. The run also carries, as
/// ghost state, the history of its table touches, so that what holds of every
/// interleaving of the two flows can be said of the run itself.
pub struct PipelinedRun {
    table: PendingTable,
    next_seq: u64,
    size: usize,
    history: Ghost<Seq<ProbeEvent>>,
}

impl PipelinedRun {
    /// The in-flight probes: sequence number to send timestamp.
    pub closed spec fn pending(self) -> Map<u64, u64> {
        self.table@
    }

    /// Every record and every match the run has performed, oldest first.
    pub closed spec fn history(self) -> Seq<ProbeEvent> {
        self.history@
    }

    /// The sequence number the next probe will carry.
    pub closed spec fn next(self) -> u64 {
        self.next_seq
    }

    /// The payload size, fixed for the lifetime of the run.
    pub closed spec fn size(self) -> usize {
        self.size
    }

    /// How many probes are in flight: sent, not yet matched to an echo.
    pub open spec fn in_flight(self) -> nat {
        self.pending().len()
    }

    /// A run is well formed when its payloads can hold a sequence number and
    /// every pending probe was stamped before the next to be sent — sequence
    /// numbers are never reused within a run.
    pub open spec fn wf(self) -> bool {
        &&& self.size() >= 8
        &&& self.pending().dom().finite()
        &&& forall|k: u64| #[trigger] self.pending().contains_key(k) ==> k < self.next()
        &&& wf_history(self.history())
        &&& self.pending() == table_after(self.history())
        &&& self.next() == count_sent(self.history())
    }

    /// Starts a pipelined run: no probe in flight, the first probe will carry
    /// sequence number zero. A payload size that cannot hold a sequence
    /// number is rejected before anything is sent.
    pub fn new(size: usize) -> (r: Result<PipelinedRun, PingError>)
        ensures
            size >= 8 ==> {
                &&& r is Ok
                &&& r->Ok_0.wf()
                &&& r->Ok_0.pending() == Map::<u64, u64>::empty()
                &&& r->Ok_0.next() == 0
                &&& r->Ok_0.size() == size
                &&& r->Ok_0.history() == Seq::<ProbeEvent>::empty()
            },
            size < 8 ==> r == Result::<PipelinedRun, PingError>::Err(PingError::PayloadTooSmall),
    {
        if size < 8 {
            return Err(PingError::PayloadTooSmall);
        }
        let run = PipelinedRun {
            table: PendingTable::new(),
            next_seq: 0,
            size,
            history: Ghost(Seq::empty()),
        };
        Ok(run)
    }

    /// The sequence number the next probe will carry.
    pub fn next_seq(&self) -> (r: u64)
        ensures
            r == self.next(),
    {
        self.next_seq
    }

    /// The payload size of the run.
    pub fn payload_size(&self) -> (r: usize)
        ensures
            r == self.size(),
    {
        self.size
    }

    /// How many probes are in flight right now.
    pub fn in_flight_len(&self) -> (r: usize)
        ensures
            r == self.in_flight(),
    {
        self.table.len()
    }

    /// One step of the sender loop: stamps the next sequence number into a
    /// fresh payload and records the send timestamp, in that order — the
    /// table entry must exist before the caller writes the payload, so that
    /// an echo can never arrive ahead of its entry. Returns the payload to
    /// write. The caller paces itself and increments nothing: the run has
    /// moved to the next sequence number when this returns.
    pub fn send_step(&mut self, now_ns: u64) -> (payload: Vec<u8>)
        requires
            old(self).wf(),
            old(self).next() < u64::MAX,
        ensures
            final(self).wf(),
            final(self).size() == old(self).size(),
            final(self).next() == old(self).next() + 1,
            codec::encodes(payload@, old(self).next(), old(self).size() as int),
            final(self).pending() == old(self).pending().insert(old(self).next(), now_ns),
            final(self).in_flight() == old(self).in_flight() + 1,
            final(self).history() == old(self).history().push(
                (ProbeEvent::Sent { seq: old(self).next(), sent_ns: now_ns }),
            ),
    {
        let payload = codec::encode(self.next_seq, self.size).unwrap();
        assert(!self.table@.contains_key(self.next_seq));
        self.table.record(self.next_seq, now_ns);
        self.next_seq = self.next_seq + 1;
        proof {
            let h = old(self).history@;
            let e = ProbeEvent::Sent { seq: old(self).next(), sent_ns: now_ns };
            self.history@ = h.push(e);
            assert(h.push(e).drop_last() =~= h);
            vstd::set::axiom_set_insert_len(old(self).pending().dom(), old(self).next());
        }
        payload
    }

    /// One step of the receiver loop, on what the transport produced next.
    /// An echoed payload is decoded and matched: its entry leaves the table
    /// and the measurement carries the time elapsed since it was recorded.
    /// An echo that matches no pending probe is a fatal protocol violation,
    /// and the end of the stream is a fatal connection failure; neither
    /// changes the table.
    pub fn receive(&mut self, ev: StreamEvent, now_ns: u64) -> (r: Result<Measurement, PingError>)
        requires
            old(self).wf(),
            ev matches StreamEvent::Echo(p) ==> p@.len() >= 8,
        ensures
            final(self).wf(),
            final(self).size() == old(self).size(),
            final(self).next() == old(self).next(),
            ev is Closed ==> {
                &&& r == Result::<Measurement, PingError>::Err(PingError::ConnectionClosed)
                &&& final(self).pending() == old(self).pending()
                &&& final(self).history() == old(self).history()
            },
            ev matches StreamEvent::Echo(p) ==> {
                let k = codec::decoded_seq(p@);
                &&& old(self).pending().contains_key(k) ==> {
                    &&& r is Ok
                    &&& r->Ok_0.seq == k
                    &&& r->Ok_0.size == old(self).size()
                    &&& r->Ok_0.elapsed_ns == elapsed_since(old(self).pending()[k], now_ns)
                    &&& final(self).pending() == old(self).pending().remove(k)
                    &&& final(self).in_flight() + 1 == old(self).in_flight()
                    &&& final(self).history() == old(self).history().push(
                        (ProbeEvent::Matched { seq: k }),
                    )
                }
                &&& !old(self).pending().contains_key(k) ==> {
                    &&& r == Result::<Measurement, PingError>::Err(PingError::ProtocolViolation(k))
                    &&& final(self).pending() == old(self).pending()
                    &&& final(self).history() == old(self).history()
                }
            },
    {
        match ev {
            StreamEvent::Closed => Err(PingError::ConnectionClosed),
            StreamEvent::Echo(payload) => {
                let seq = codec::decode(&payload);
                match self.table.take(seq) {
                    Ok(sent_ns) => {
                        proof {
                            let h = old(self).history@;
                            let e = ProbeEvent::Matched { seq };
                            self.history@ = h.push(e);
                            assert(h.push(e).drop_last() =~= h);
                            vstd::set::axiom_set_remove_len(old(self).pending().dom(), seq);
                        }
                        Ok(Measurement { seq, size: self.size, elapsed_ns: elapsed_ns(sent_ns, now_ns) })
                    },
                    Err(e) => Err(e),
                }
            },
        }
    }
}

/// One touch of the Pending Table, as seen across both flows of control: the
/// sender records a freshly stamped probe, or the receiver matches an echo
/// and removes its entry.
pub enum ProbeEvent {
    Sent { seq: u64, sent_ns: u64 },
    Matched { seq: u64 },
}

/// The Pending Table that results from replaying a history of table touches,
/// oldest first, starting from the empty table of a fresh run.
pub open spec fn table_after(tr: Seq<ProbeEvent>) -> Map<u64, u64>
    decreases tr.len(),
{
    if tr.len() == 0 {
        Map::empty()
    } else {
        let m = table_after(tr.drop_last());
        match tr.last() {
            ProbeEvent::Sent { seq, sent_ns } => m.insert(seq, sent_ns),
            ProbeEvent::Matched { seq } => m.remove(seq),
        }
    }
}

/// A history a run can actually produce: the sender never records a sequence
/// number that is still pending, and the receiver only matches echoes of
/// probes that are pending — every other echo aborts the run.
pub open spec fn wf_history(tr: Seq<ProbeEvent>) -> bool
    decreases tr.len(),
{
    if tr.len() == 0 {
        true
    } else {
        &&& wf_history(tr.drop_last())
        &&& match tr.last() {
            ProbeEvent::Sent { seq, .. } => !table_after(tr.drop_last()).contains_key(seq),
            ProbeEvent::Matched { seq } => table_after(tr.drop_last()).contains_key(seq),
        }
    }
}

/// How many probes a history has sent.
pub open spec fn count_sent(tr: Seq<ProbeEvent>) -> nat
    decreases tr.len(),
{
    if tr.len() == 0 {
        0
    } else {
        count_sent(tr.drop_last()) + (if tr.last() is Sent {
            1nat
        } else {
            0
        })
    }
}

/// How many echoes a history has matched.
pub open spec fn count_matched(tr: Seq<ProbeEvent>) -> nat
    decreases tr.len(),
{
    if tr.len() == 0 {
        0
    } else {
        count_matched(tr.drop_last()) + (if tr.last() is Matched {
            1nat
        } else {
            0
        })
    }
}

/// However the sender's records and the receiver's matches interleave, the
/// Pending Table's size always equals the number of probes sent minus the
/// number of echoes matched so far.
pub proof fn lemma_in_flight_balance(tr: Seq<ProbeEvent>)
    requires
        wf_history(tr),
    ensures
        table_after(tr).dom().finite(),
        table_after(tr).len() + count_matched(tr) == count_sent(tr),
    decreases tr.len(),
{
    if tr.len() > 0 {
        lemma_in_flight_balance(tr.drop_last());
        let m = table_after(tr.drop_last());
        match tr.last() {
            ProbeEvent::Sent { seq, .. } => {
                vstd::set::axiom_set_insert_len(m.dom(), seq);
            },
            ProbeEvent::Matched { seq } => {
                vstd::set::axiom_set_remove_len(m.dom(), seq);
            },
        }
    }
}

/// At every reachable state of a pipelined run — under any interleaving of
/// the sender's records and the receiver's matches — the number of probes in
/// flight equals the number of probes sent minus the number of echoes matched
/// so far; and the number sent is just the next sequence number, since probes
/// are stamped 0, 1, 2, ...
pub proof fn lemma_run_in_flight_balance(r: PipelinedRun)
    requires
        r.wf(),
    ensures
        r.in_flight() + count_matched(r.history()) == count_sent(r.history()),
        r.in_flight() + count_matched(r.history()) == r.next(),
{
    lemma_in_flight_balance(r.history());
}

/// With an order-preserving transport and a peer that echoes every payload
/// verbatim, echoes come back in send order, so the receiver emits results
/// with strictly increasing sequence numbers: the i-th result is probe i.
pub proof fn lemma_fifo_echo_in_order(payloads: Seq<Seq<u8>>, size: int)
    requires
        payloads.len() <= u64::MAX,
        forall|i: int| 0 <= i < payloads.len() ==> codec::encodes(#[trigger] payloads[i], i as u64, size),
    ensures
        forall|i: int| 0 <= i < payloads.len() ==> codec::decoded_seq(#[trigger] payloads[i]) == i,
{
    assert forall|i: int| 0 <= i < payloads.len() implies codec::decoded_seq(#[trigger] payloads[i]) == i by {
        codec::lemma_codec_round_trip(payloads[i], i as u64, size);
    }
}

} // verus!
