use fakeclock::Clock;
use fakeclock::Duration;
use fakeclock::FakeClock;
use fakeclock::Timestamp;

use std::time::SystemTime;
use std::time::UNIX_EPOCH;

fn current_timestamp() -> Timestamp {
    let d = SystemTime::now().duration_since(UNIX_EPOCH).unwrap();
    Timestamp::new(d.as_secs(), d.subsec_nanos())
}

#[test]
fn from_system_time() {
    let now = current_timestamp();
    let clock = FakeClock::from(now);
    assert_eq!(clock.now(), now);
}

#[test]
fn from_duration() {
    let d = SystemTime::now().duration_since(UNIX_EPOCH).unwrap();
    let since_epoch = Duration::new(d.as_secs(), d.subsec_nanos());
    let clock = FakeClock::from(since_epoch);
    assert_eq!(clock.now(), Timestamp::new(d.as_secs(), d.subsec_nanos()));
}

#[test]
fn advance_secs() {
    let now = current_timestamp();
    let mut clock = FakeClock::from(now);
    clock.advance(Duration::from_secs(1));
    assert_eq!(clock.now(), now.add_duration(Duration::from_secs(1)));
}

#[test]
fn advance_nanos() {
    let now = current_timestamp();
    let mut clock = FakeClock::from(now);
    clock.advance(Duration::from_nanos(1));
    assert_eq!(clock.now(), now.add_duration(Duration::from_nanos(1)));
}

#[test]
fn new_reads_back_exactly() {
    let t = Timestamp::new(42, 123_456_789);
    let clock = FakeClock::new(t);
    assert_eq!(clock.now(), t);
}

#[test]
fn from_duration_offsets_epoch() {
    let clock = FakeClock::from(Duration::new(5, 500));
    assert_eq!(clock.now(), Timestamp::new(5, 500));
    assert_eq!(
        clock.now(),
        Timestamp::epoch().add_duration(Duration::new(5, 500))
    );
}

#[test]
fn default_is_reference_instant() {
    let clock = FakeClock::default();
    // 1,431,648,000,000 ms since the epoch: 2015-05-15T00:00:00 UTC.
    assert_eq!(clock.now(), Timestamp::new(1_431_648_000, 0));
    assert_eq!(
        clock.now(),
        Timestamp::epoch().add_duration(Duration::from_millis(1_431_648_000_000))
    );
}

#[test]
fn advance_zero_leaves_value() {
    let t = Timestamp::new(9, 9);
    let mut clock = FakeClock::new(t);
    clock.advance(Duration::from_secs(0));
    assert_eq!(clock.now(), t);
}

#[test]
fn advance_carries_subsecond_part() {
    let mut clock = FakeClock::new(Timestamp::new(1, 999_999_999));
    clock.advance(Duration::from_nanos(2));
    assert_eq!(clock.now(), Timestamp::new(2, 1));
}

#[test]
fn from_millis_is_exact() {
    assert_eq!(Duration::from_millis(1234), Duration::new(1, 234_000_000));
    let mut clock = FakeClock::new(Timestamp::epoch());
    clock.advance(Duration::from_millis(1234));
    assert_eq!(clock.now(), Timestamp::new(1, 234_000_000));
}

#[test]
fn set_moves_forward() {
    let mut clock = FakeClock::new(Timestamp::new(10, 0));
    clock.set(Timestamp::new(20, 5));
    assert_eq!(clock.now(), Timestamp::new(20, 5));
}

#[test]
fn set_moves_backward() {
    let mut clock = FakeClock::new(Timestamp::new(10, 0));
    clock.set(Timestamp::new(3, 999_999_999));
    assert_eq!(clock.now(), Timestamp::new(3, 999_999_999));
}

#[test]
fn clone_is_independent_snapshot() {
    let t = Timestamp::new(100, 7);
    let mut original = FakeClock::new(t);
    let mut copy = original.clone();
    assert_eq!(copy.now(), t);

    original.advance(Duration::from_secs(60));
    assert_eq!(copy.now(), t);
    assert_eq!(
        original.now(),
        Timestamp::new(160, 7)
    );

    copy.advance(Duration::from_nanos(1));
    assert_eq!(copy.now(), Timestamp::new(100, 8));
    assert_eq!(original.now(), Timestamp::new(160, 7));
}

#[test]
fn repeated_advances_accumulate() {
    let start = Timestamp::new(50, 0);
    let mut clock = FakeClock::new(start);
    let d = Duration::from_nanos(3);
    let mut i: u64 = 0;
    while i < 1000 {
        clock.advance(d);
        i += 1;
    }
    // 1000 advances by 3 ns: none lost.
    assert_eq!(clock.now(), Timestamp::new(50, 3000));
}

#[test]
fn debug_form_is_renderable() {
    let clock = FakeClock::default();
    let rendered = format!("{:?}", clock);
    assert!(!rendered.is_empty());
}

fn read_through_capability<C: Clock>(clock: &C) -> Timestamp {
    clock.now()
}

#[test]
fn capability_substitution() {
    let fake = FakeClock::new(Timestamp::new(1, 2));
    assert_eq!(read_through_capability(&fake), Timestamp::new(1, 2));
    let sys = fakeclock::SystemClock::default();
    let t = read_through_capability(&sys);
    assert!(t >= Timestamp::epoch());
}
