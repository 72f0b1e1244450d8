use deskhelp::text::{decimal, seconds};

#[test]
fn numbers_are_written_in_decimal() {
    assert_eq!(decimal(0), "0");
    assert_eq!(decimal(7), "7");
    assert_eq!(decimal(10), "10");
    assert_eq!(decimal(1234567890), "1234567890");
    assert_eq!(decimal(u64::MAX), "18446744073709551615");
    for n in [1u64, 9, 11, 99, 100, 101, 999_999, 1_000_000, 4_294_967_296] {
        assert_eq!(decimal(n), n.to_string());
    }
}

#[test]
fn times_are_written_in_seconds_with_three_places() {
    assert_eq!(seconds(0), "0.000");
    assert_eq!(seconds(5), "0.005");
    assert_eq!(seconds(50), "0.050");
    assert_eq!(seconds(999), "0.999");
    assert_eq!(seconds(1000), "1.000");
    assert_eq!(seconds(1234), "1.234");
    assert_eq!(seconds(61007), "61.007");
    assert_eq!(seconds(u64::MAX), "18446744073709551.615");
}
