use gpio_timer::delay::{deadline_after, delay_ms};
use gpio_timer::timer::Timer;

/// The deadline is entry value plus the duration in microseconds.
#[test]
fn deadline_converts_milliseconds() {
    assert_eq!(deadline_after(0, 5000), 5_000_000);
    assert_eq!(deadline_after(123, 1), 1123);
    assert_eq!(deadline_after(7, 0), 7);
}

/// A deadline past the 64-bit range saturates instead of wrapping.
#[test]
fn deadline_saturates_instead_of_wrapping() {
    assert_eq!(deadline_after(u64::MAX, 1), u64::MAX);
    assert_eq!(deadline_after(u64::MAX - 5, u32::MAX), u64::MAX);
    assert_eq!(deadline_after(u64::MAX - 1000, 1), u64::MAX);
    // The largest non-saturating case is exact.
    assert_eq!(deadline_after(u64::MAX - 1000, 1), u64::MAX);
    assert_eq!(deadline_after(u64::MAX - 1001, 1), u64::MAX - 1);
}

/// `delay_ms(5000)` returns only once the counter has advanced a full
/// 5,000,000 microseconds; 4,999,999 is not enough.
#[test]
fn delay_waits_for_full_duration() {
    let mut timer = Timer::from_values(vec![0, 4_999_999, 5_000_000, 6_000_000]).unwrap();
    delay_ms(&mut timer, 5000);
    // Entry read one sample, the polls two more: the poll that saw
    // 4,999,999 kept waiting, the one that saw 5,000,000 returned.
    assert_eq!(timer.position(), 3);
    assert_eq!(timer.now(), 6_000_000);
}

/// A delay from a nonzero entry value measures from that value.
#[test]
fn delay_measures_from_entry_value() {
    let mut timer = Timer::from_values(vec![1000, 1999, 2000, 2500]).unwrap();
    delay_ms(&mut timer, 1);
    // Deadline 2000: the poll reading 1999 kept waiting.
    assert_eq!(timer.position(), 3);
    assert_eq!(timer.now(), 2500);
}

/// A saturated deadline ends the delay when the counter tops out rather than
/// wrapping to a deadline in the past.
#[test]
fn delay_with_saturated_deadline_waits_for_counter_top() {
    let mut timer = Timer::from_values(vec![u64::MAX - 5, u64::MAX - 1, u64::MAX]).unwrap();
    delay_ms(&mut timer, u32::MAX);
    // Only the reading of u64::MAX satisfies the saturated deadline.
    assert_eq!(timer.position(), 2);
}

/// A zero-length delay still takes one poll, which already meets the
/// deadline.
#[test]
fn zero_delay_returns_at_once() {
    let mut timer = Timer::from_values(vec![40, 40, 41]).unwrap();
    delay_ms(&mut timer, 0);
    assert_eq!(timer.position(), 2);
}
