//! Probe codec: a probe is a fixed-size byte buffer whose first eight bytes
//! hold the sequence number in little-endian order; the remaining bytes are
//! filler, zeroed here for determinism, and never inspected on return.

use vstd::prelude::*;
use vstd::bytes::{spec_u64_from_le_bytes, spec_u64_to_le_bytes, u64_from_le_bytes,
    u64_to_le_bytes, lemma_auto_spec_u64_to_from_le_bytes};
use crate::PingError;

verus! {

/// A well-formed probe payload for sequence number `seq` at payload size
/// `size`: exactly `size` bytes, the first eight of which are the
/// little-endian encoding of `seq`, the rest zero filler.
pub open spec fn encodes(payload: Seq<u8>, seq: u64, size: int) -> bool {
    &&& size >= 8
    &&& payload.len() == size
    &&& payload.subrange(0, 8) == spec_u64_to_le_bytes(seq)
    &&& forall|i: int| 8 <= i < size ==> payload[i] == 0
}

/// The sequence number carried by a payload: its first eight bytes read in
/// little-endian order. The filler bytes never matter.
pub open spec fn decoded_seq(payload: Seq<u8>) -> u64 {
    spec_u64_from_le_bytes(payload.subrange(0, 8))
}

/// Builds the probe payload for `seq`: rejects sizes that cannot hold the
/// sequence number, and otherwise returns exactly the `size`-byte buffer
/// described by `encodes`.
pub fn encode(seq: u64, size: usize) -> (r: Result<Vec<u8>, PingError>)
    ensures
        size >= 8 ==> (r is Ok && encodes(r->Ok_0@, seq, size as int)),
        size < 8 ==> r == Result::<Vec<u8>, PingError>::Err(PingError::PayloadTooSmall),
{
    if size < 8 {
        return Err(PingError::PayloadTooSmall);
    }
    let mut payload = u64_to_le_bytes(seq);
    while payload.len() < size
        invariant
            8 <= payload@.len() <= size,
            payload@.subrange(0, 8) == spec_u64_to_le_bytes(seq),
            forall|i: int| 8 <= i < payload@.len() ==> payload@[i] == 0,
        decreases size - payload@.len(),
    {
        let ghost before = payload@;
        payload.push(0);
        proof {
            assert(payload@.subrange(0, 8) =~= before.subrange(0, 8));
        }
    }
    Ok(payload)
}

/// Reads the sequence number back out of a payload of at least eight bytes.
pub fn decode(payload: &Vec<u8>) -> (r: u64)
    requires
        payload@.len() >= 8,
    ensures
        r == decoded_seq(payload@),
{
    let head = vstd::slice::slice_subrange(payload.as_slice(), 0, 8);
    u64_from_le_bytes(head)
}

/// The codec round-trips: decoding any well-formed probe payload yields the
/// sequence number it was built from, for every payload size of at least
/// eight bytes.
pub proof fn lemma_codec_round_trip(payload: Seq<u8>, seq: u64, size: int)
    requires
        encodes(payload, seq, size),
    ensures
        decoded_seq(payload) == seq,
{
    lemma_auto_spec_u64_to_from_le_bytes();
}

} // verus!
