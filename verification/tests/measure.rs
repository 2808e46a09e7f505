use ping_core::elapsed_ns;

#[test]
fn elapsed_is_the_clock_difference() {
    assert_eq!(elapsed_ns(100, 350), 250);
    assert_eq!(elapsed_ns(0, u64::MAX), u64::MAX);
    assert_eq!(elapsed_ns(100, 100), 0);
}

#[test]
fn elapsed_saturates_instead_of_wrapping() {
    assert_eq!(elapsed_ns(350, 100), 0);
    assert_eq!(elapsed_ns(u64::MAX, 0), 0);
}
