//! Pending Table: the map from in-flight sequence numbers to send timestamps
//! that bridges the sender and the receiver of a pipelined run. Entries are
//! inserted exactly once, before the probe is written, and removed exactly
//! once, when its echo is matched; taking an absent entry is the protocol
//! violation that aborts a run.
//!
//! Callers that drive the two flows concurrently guard a whole table behind
//! mutual exclusion; each operation here is one bounded critical section.

use vstd::prelude::*;
use std::collections::HashMap;
use crate::PingError;

verus! {

broadcast use vstd::std_specs::hash::group_hash_axioms;

/// The in-flight probes of one pipelined run, keyed by sequence number, each
/// mapped to the nanosecond timestamp taken just before it was written.
pub struct PendingTable {
    map: HashMap<u64, u64>,
}

impl View for PendingTable {
    type V = Map<u64, u64>;

    closed spec fn view(&self) -> Map<u64, u64> {
        self.map@
    }
}

impl PendingTable {
    /// An empty table: no probe is in flight.
    pub fn new() -> (r: PendingTable)
        ensures
            r@ == Map::<u64, u64>::empty(),
    {
        PendingTable { map: HashMap::new() }
    }

    /// How many probes are in flight.
    pub fn len(&self) -> (r: usize)
        ensures
            r == self@.len(),
    {
        proof {
            vstd::std_specs::hash::axiom_hashmap_view_finite_dom(self.map);
        }
        self.map.len()
    }

    /// Whether `seq` is currently in flight.
    pub fn contains(&self, seq: u64) -> (r: bool)
        ensures
            r == self@.contains_key(seq),
    {
        self.map.contains_key(&seq)
    }

    /// Records that the probe `seq` is being sent at `sent_ns`. A sequence
    /// number is recorded at most once per run: within one run the sender
    /// never reuses one.
    pub fn record(&mut self, seq: u64, sent_ns: u64)
        requires
            !old(self)@.contains_key(seq),
        ensures
            final(self)@ == old(self)@.insert(seq, sent_ns),
    {
        self.map.insert(seq, sent_ns);
    }

    /// Removes and returns the send timestamp of `seq`. An echo for a
    /// sequence number that is not pending — never sent, or already matched —
    /// is a fatal protocol violation, reported rather than ignored.
    pub fn take(&mut self, seq: u64) -> (r: Result<u64, PingError>)
        ensures
            old(self)@.contains_key(seq) ==> {
                &&& r == Result::<u64, PingError>::Ok(old(self)@[seq])
                &&& final(self)@ == old(self)@.remove(seq)
            },
            !old(self)@.contains_key(seq) ==> {
                &&& r == Result::<u64, PingError>::Err(PingError::ProtocolViolation(seq))
                &&& final(self)@ == old(self)@
            },
    {
        match self.map.remove(&seq) {
            Some(sent_ns) => Ok(sent_ns),
            None => Err(PingError::ProtocolViolation(seq)),
        }
    }
}

/// After recording timestamp `sent_ns` under a fresh sequence number `seq`,
/// taking `seq` yields exactly `sent_ns`, and removes the entry, so a second
/// take of the same number finds nothing and must fail.
pub proof fn lemma_record_then_take_once(m: Map<u64, u64>, seq: u64, sent_ns: u64)
    ensures
        m.insert(seq, sent_ns).contains_key(seq),
        m.insert(seq, sent_ns)[seq] == sent_ns,
        !m.insert(seq, sent_ns).remove(seq).contains_key(seq),
{
}

} // verus!
