use ping_core::codec::{decode, encode};
use ping_core::PingError;

#[test]
fn round_trip_zero_at_minimum_size() {
    let p = encode(0, 8).unwrap();
    assert_eq!(p.len(), 8);
    assert_eq!(decode(&p), 0);
}

#[test]
fn round_trip_42_at_size_64() {
    let p = encode(42, 64).unwrap();
    assert_eq!(p.len(), 64);
    assert_eq!(decode(&p), 42);
}

#[test]
fn round_trip_max_sequence_number() {
    let p = encode(u64::MAX, 9).unwrap();
    assert_eq!(decode(&p), u64::MAX);
}

#[test]
fn encode_is_little_endian() {
    let p = encode(0x0807060504030201, 8).unwrap();
    assert_eq!(p, vec![1, 2, 3, 4, 5, 6, 7, 8]);
}

#[test]
fn encode_zeroes_the_filler() {
    let p = encode(u64::MAX, 20).unwrap();
    assert_eq!(p.len(), 20);
    for i in 0..8 {
        assert_eq!(p[i], 0xff);
    }
    for i in 8..20 {
        assert_eq!(p[i], 0);
    }
}

#[test]
fn encode_rejects_sizes_below_eight() {
    assert_eq!(encode(1, 0), Err(PingError::PayloadTooSmall));
    assert_eq!(encode(1, 7), Err(PingError::PayloadTooSmall));
}

#[test]
fn decode_ignores_the_filler() {
    let p = encode(1234567, 32).unwrap();
    let mut q = p.clone();
    for i in 8..32 {
        q[i] = 0xab;
    }
    assert_eq!(decode(&p), 1234567);
    assert_eq!(decode(&q), 1234567);
}
