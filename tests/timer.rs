use chip8::Timer;

/// One period of a 60 Hz timer, rounded up to whole nanoseconds.
const PERIOD_60HZ: u64 = 16_666_667;

#[test]
fn timer_counts_down_to_zero_and_stops() {
    let mut t = Timer::new(60);
    t.set(5);
    assert!(t.is_active());
    t.check(5 * PERIOD_60HZ);
    assert_eq!(t.get(), 0);
    assert!(!t.is_active());
    t.check(PERIOD_60HZ);
    assert_eq!(t.get(), 0);
    assert!(!t.is_active());
}

#[test]
fn timer_decrements_once_per_period() {
    let mut t = Timer::new(60);
    t.set(5);
    for expected in [4u8, 3, 2, 1, 0] {
        t.check(PERIOD_60HZ);
        assert_eq!(t.get(), expected);
    }
    assert!(!t.is_active());
}

#[test]
fn timer_keeps_leftover_time() {
    let mut t = Timer::new(10);
    t.set(3);
    t.check(60_000_000);
    assert_eq!(t.get(), 3);
    t.check(60_000_000);
    assert_eq!(t.get(), 2);
    t.check(250_000_000);
    assert_eq!(t.get(), 0);
}

#[test]
fn timer_set_to_zero_is_idle() {
    let mut t = Timer::new(60);
    t.set(7);
    t.set(0);
    assert_eq!(t.get(), 0);
    assert!(!t.is_active());
    t.check(1_000_000_000);
    assert_eq!(t.get(), 0);
}

#[test]
fn timer_idle_ignores_time() {
    let mut t = Timer::new(60);
    t.check(10 * PERIOD_60HZ);
    assert_eq!(t.get(), 0);
    t.set(2);
    t.check(PERIOD_60HZ);
    assert_eq!(t.get(), 1);
}

#[test]
fn timer_with_zero_rate_never_decrements() {
    let mut t = Timer::new(0);
    t.set(9);
    t.check(u64::MAX);
    assert_eq!(t.get(), 9);
}

#[test]
fn timer_long_tick_saturates_at_zero() {
    let mut t = Timer::new(255);
    t.set(255);
    t.check(u64::MAX);
    assert_eq!(t.get(), 0);
    assert!(!t.is_active());
}
