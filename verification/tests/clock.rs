use sloggers::syslog::clock::{shift, Clock};

#[test]
fn shift_moves_a_timestamp() {
    assert_eq!(shift(10, 5), 15);
    assert_eq!(shift(10, -50_000_000), -49_999_990);
    assert_eq!(shift(-3, 0), -3);
}

#[test]
fn shift_stops_at_the_ends_of_the_range() {
    assert_eq!(shift(i128::MAX, 1), i128::MAX);
    assert_eq!(shift(i128::MAX - 1, 1), i128::MAX);
    assert_eq!(shift(i128::MIN, -1), i128::MIN);
    assert_eq!(shift(i128::MIN + 49_999_999, -50_000_000), i128::MIN);
    assert_eq!(shift(i128::MIN, i128::MAX), -1);
}

#[test]
fn clock_readings_do_not_go_back() {
    let clock = Clock::start();
    let mut last = clock.now();
    assert!(0 <= last);
    for _ in 0..1000 {
        let now = clock.now();
        assert!(last <= now);
        last = now;
    }
}

#[test]
fn clock_follows_real_time() {
    let clock = Clock::start();
    let started = std::time::Instant::now();
    // Spin until two milliseconds have passed on the clock of the machine.
    while started.elapsed() < std::time::Duration::from_millis(2) {}
    let reading = clock.now();
    let upper = started.elapsed().as_nanos() as i128;
    assert!(reading >= 2_000_000);
    // The clock was started before `started` was taken, by less than a second.
    assert!(reading <= upper + 1_000_000_000);
}
