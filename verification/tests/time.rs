use nets_monitor::{Duration, Timestamp};

#[test]
fn durations_count_whole_minutes_toward_zero() {
    assert_eq!(Duration::seconds(60).num_minutes(), 1);
    assert_eq!(Duration::seconds(119).num_minutes(), 1);
    assert_eq!(Duration::seconds(59).num_minutes(), 0);
    assert_eq!(Duration::seconds(-59).num_minutes(), 0);
    assert_eq!(Duration::seconds(-60).num_minutes(), -1);
    assert_eq!(Duration::seconds(-121).num_minutes(), -2);
    assert_eq!(Duration::hours(1).num_minutes(), 60);
    assert_eq!(Duration::minutes(5).num_seconds(), 300);
    assert_eq!(Duration { secs: -1, nanos: 500_000_000 }.num_seconds(), 0);
    assert_eq!(Duration { secs: -61, nanos: 1 }.num_minutes(), -1);
    assert_eq!(Duration::seconds(i64::MIN).num_minutes(), -153722867280912930);
    assert_eq!(Duration::seconds(i64::MAX).num_minutes(), 153722867280912930);
}

#[test]
fn timestamps_add_with_carry() {
    let t = Timestamp::new(100, 900_000_000);
    assert_eq!(
        t.checked_add(Duration { secs: 1, nanos: 200_000_000 }),
        Some(Timestamp::new(102, 100_000_000))
    );
    assert_eq!(t.checked_add(Duration::seconds(-100)), Some(Timestamp::new(0, 900_000_000)));
    assert_eq!(
        t.checked_add(Duration { secs: -101, nanos: 100_000_000 }),
        Some(Timestamp::new(0, 0))
    );
    assert_eq!(Timestamp::new(i64::MAX, 0).checked_add(Duration::seconds(1)), None);
    assert_eq!(
        Timestamp::new(i64::MAX, 500_000_000).checked_add(Duration { secs: 0, nanos: 500_000_000 }),
        None
    );
    assert_eq!(Timestamp::new(i64::MIN, 0).checked_add(Duration::seconds(-1)), None);
    assert_eq!(
        Timestamp::new(i64::MIN, 999_999_999).checked_add(Duration { secs: -1, nanos: 1 }),
        Some(Timestamp::new(i64::MIN, 0))
    );
    assert_eq!(Timestamp::epoch(), Timestamp::new(0, 0));
    assert_eq!(Timestamp::from_calendar(59, 999_999_999), Timestamp::new(59, 999_999_999));
    assert_eq!(Timestamp::from_calendar(59, 1_000_000_000), Timestamp::new(59, 999_999_999));
    assert_eq!(Timestamp::from_calendar(-1, 1_999_999_999), Timestamp::new(-1, 999_999_999));
    assert_eq!(Timestamp::new(7, 9).truncate_to_second(), Timestamp::new(7, 0));
}
