use tetrs::game::stats::Stats;
use tetrs::text::{format_number, format_time_ms};
use tetrs::time::Duration;

#[test]
fn numbers_are_grouped_by_thousands() {
    assert_eq!(format_number(0), "0");
    assert_eq!(format_number(7), "7");
    assert_eq!(format_number(999), "999");
    assert_eq!(format_number(1000), "1,000");
    assert_eq!(format_number(1234567), "1,234,567");
    assert_eq!(format_number(1000005), "1,000,005");
    assert_eq!(format_number(40020), "40,020");
    assert_eq!(format_number(u64::MAX), "18,446,744,073,709,551,615");
}

#[test]
fn times_are_written_as_minutes_seconds_and_milliseconds() {
    assert_eq!(format_time_ms(0), "00:00.000");
    assert_eq!(format_time_ms(61_005), "01:01.005");
    assert_eq!(format_time_ms(599_999), "09:59.999");
    assert_eq!(format_time_ms(6_000_000), "100:00.000");
    assert_eq!(format_time_ms(83_450), format!("{:02}:{:02}.{:03}", 1, 23, 450));
}

#[test]
fn stats_start_at_zero_and_format_their_time() {
    let mut stats = Stats::new();
    assert_eq!(stats.pieces_placed, 0);
    assert_eq!(stats.time, Duration::zero());
    assert_eq!(stats.format_time(), "00:00.000");
    stats.time = Duration::from_nanos(125_250_999_999);
    assert_eq!(stats.format_time(), "02:05.250");
    stats.quads = 3;
    stats.reset();
    assert_eq!(stats, Stats::new());
}

#[test]
fn durations_count_nanoseconds() {
    assert_eq!(Duration::from_millis(3).as_nanos(), 3_000_000);
    assert_eq!(Duration::from_secs(2), Duration::from_millis(2000));
    assert_eq!(Duration::from_nanos(2_999_999).as_millis(), 2);
    assert!(Duration::zero().is_zero());
    assert!(!Duration::from_nanos(1).is_zero());
    let a = Duration::from_millis(5);
    let b = Duration::from_millis(7);
    assert_eq!(a.checked_add(b), Some(Duration::from_millis(12)));
    assert_eq!(Duration::from_nanos(u128::MAX).checked_add(Duration::from_nanos(1)), None);
    assert_eq!(b.checked_sub(a), Some(Duration::from_millis(2)));
    assert_eq!(a.checked_sub(b), None);
    assert_eq!(a.saturating_sub(b), Duration::zero());
    assert_eq!(b.saturating_sub(a), Duration::from_millis(2));
    assert!(a < b);
}
