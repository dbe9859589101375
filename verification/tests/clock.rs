use camera::clock::{timestamp_micros, CYCLES_PER_MICROSECOND};

#[test]
fn two_hundred_cycles_are_a_microsecond() {
    assert_eq!(CYCLES_PER_MICROSECOND, 200);
    assert_eq!(timestamp_micros(0), 0);
    assert_eq!(timestamp_micros(199), 0);
    assert_eq!(timestamp_micros(200), 1);
    assert_eq!(timestamp_micros(399), 1);
    assert_eq!(timestamp_micros(200_000_000), 1_000_000);
}

#[test]
fn timestamp_of_the_largest_count() {
    assert_eq!(timestamp_micros(u32::MAX), 21_474_836);
}
