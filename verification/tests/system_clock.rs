use fakeclock::Clock;
use fakeclock::Duration;
use fakeclock::SystemClock;
use fakeclock::Timestamp;

use std::time::SystemTime;
use std::time::UNIX_EPOCH;

#[test]
fn system_clock_is_non_decreasing() {
    let clock = SystemClock::default();
    let first = clock.now();
    let second = clock.now();
    assert!(second >= first);
}

#[test]
fn system_clock_tracks_platform_time() {
    let clock = SystemClock;
    let before = clock.now();
    let d = SystemTime::now().duration_since(UNIX_EPOCH).unwrap();
    let platform = Timestamp::new(d.as_secs(), d.subsec_nanos());
    let after = clock.now();
    // The platform reading was taken between the two capability readings, so
    // it lies within them, give or take nothing; the five-second bound only
    // guards against a wildly wrong conversion.
    assert!(platform >= before);
    assert!(platform <= after.add_duration(Duration::from_secs(5)));
}

#[test]
fn system_clock_copies_are_equivalent() {
    let clock = SystemClock;
    let copy = clock;
    let first = clock.now();
    let second = copy.now();
    assert!(second >= first);
}
