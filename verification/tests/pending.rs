use ping_core::pending::PendingTable;
use ping_core::PingError;

#[test]
fn record_then_take_returns_the_timestamp_exactly_once() {
    let mut t = PendingTable::new();
    t.record(5, 1000);
    assert_eq!(t.take(5), Ok(1000));
    assert_eq!(t.take(5), Err(PingError::ProtocolViolation(5)));
}

#[test]
fn take_of_a_never_recorded_number_fails() {
    let mut t = PendingTable::new();
    t.record(1, 10);
    assert_eq!(t.take(2), Err(PingError::ProtocolViolation(2)));
    // The failed take left the recorded entry alone.
    assert_eq!(t.take(1), Ok(10));
}

#[test]
fn len_counts_the_in_flight_entries() {
    let mut t = PendingTable::new();
    assert_eq!(t.len(), 0);
    assert!(!t.contains(7));
    t.record(7, 70);
    t.record(8, 80);
    t.record(9, 90);
    assert_eq!(t.len(), 3);
    assert!(t.contains(7));
    assert_eq!(t.take(8), Ok(80));
    assert_eq!(t.len(), 2);
}
