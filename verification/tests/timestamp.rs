use chrono::{DateTime, Duration, Utc};

use middle_mile::domain::timestamp::Timestamp;

fn timestamp(at: DateTime<Utc>) -> Timestamp {
    Timestamp { secs: at.timestamp(), nanos: at.timestamp_subsec_nanos() }
}

#[test]
fn the_default_instant_is_the_start_of_the_time_line() {
    assert_eq!(Timestamp::default(), Timestamp { secs: 0, nanos: 0 });
    assert_eq!(Timestamp::default(), timestamp(DateTime::<Utc>::default()));
}

#[test]
fn instants_are_ordered_by_seconds_then_by_nanoseconds() {
    let early = Timestamp { secs: 10, nanos: 999_999_999 };
    let late = Timestamp { secs: 11, nanos: 0 };
    let later = Timestamp { secs: 11, nanos: 1 };
    let before_the_epoch = Timestamp { secs: -1, nanos: 500 };

    assert!(early.is_at_or_before(&late));
    assert!(!late.is_at_or_before(&early));
    assert!(late.is_at_or_before(&later));
    assert!(!later.is_at_or_before(&late));
    assert!(late.is_at_or_before(&late));
    assert!(before_the_epoch.is_at_or_before(&Timestamp::default()));
    assert!(!Timestamp::default().is_at_or_before(&before_the_epoch));
}

#[test]
fn instants_are_ordered_as_the_calendar_orders_them() {
    let now = Utc::now();
    let steps = [
        Duration::nanoseconds(-1),
        Duration::nanoseconds(0),
        Duration::nanoseconds(1),
        Duration::milliseconds(-999),
        Duration::milliseconds(999),
        Duration::seconds(-1),
        Duration::seconds(1),
        Duration::days(-20_000),
        Duration::days(20_000),
    ];
    for left in steps {
        for right in steps {
            let (a, b) = (now + left, now + right);
            assert_eq!(timestamp(a).is_at_or_before(&timestamp(b)), a <= b);
        }
    }
}

#[test]
fn a_window_includes_both_of_its_ends() {
    let start = Timestamp { secs: 10, nanos: 5 };
    let end = Timestamp { secs: 20, nanos: 5 };

    assert!(start.is_within(&start, &end));
    assert!(end.is_within(&start, &end));
    assert!(Timestamp { secs: 15, nanos: 0 }.is_within(&start, &end));
    assert!(!Timestamp { secs: 10, nanos: 4 }.is_within(&start, &end));
    assert!(!Timestamp { secs: 20, nanos: 6 }.is_within(&start, &end));
    assert!(start.is_within(&start, &start));
    assert!(!start.is_within(&end, &start));
}

#[test]
fn stepping_moves_the_seconds_and_keeps_the_nanoseconds() {
    let start = Timestamp { secs: 1_000, nanos: 123 };

    assert_eq!(start.after_steps(300, 0), start);
    assert_eq!(start.after_steps(300, 3), Timestamp { secs: 1_900, nanos: 123 });
    assert_eq!(start.after_steps(-300, 4), Timestamp { secs: -200, nanos: 123 });
    assert_eq!(start.after_steps(0, usize::MAX), start);
    assert_eq!(start.checked_after_steps(300, 3), Some(Timestamp { secs: 1_900, nanos: 123 }));
}

#[test]
fn stepping_agrees_with_the_calendar() {
    let start = Utc::now();
    for (interval, steps) in [(300_i64, 0_usize), (300, 11), (1, 86_400), (-3_600, 48), (86_400, 365)] {
        let expected = start + Duration::seconds(interval) * steps as i32;
        assert_eq!(timestamp(start).after_steps(interval, steps), timestamp(expected));
    }
}

#[test]
fn stepping_beyond_the_time_line_gives_nothing() {
    let near_the_end = Timestamp { secs: i64::MAX - 10, nanos: 0 };
    let near_the_start = Timestamp { secs: i64::MIN + 10, nanos: 0 };

    assert_eq!(
        near_the_end.checked_after_steps(5, 2),
        Some(Timestamp { secs: i64::MAX, nanos: 0 })
    );
    assert_eq!(near_the_end.checked_after_steps(5, 3), None);
    assert_eq!(near_the_end.checked_after_steps(i64::MAX, usize::MAX), None);
    assert_eq!(
        near_the_start.checked_after_steps(-5, 2),
        Some(Timestamp { secs: i64::MIN, nanos: 0 })
    );
    assert_eq!(near_the_start.checked_after_steps(-5, 3), None);
    assert_eq!(near_the_start.checked_after_steps(i64::MIN, usize::MAX), None);
    // a step too long for the seconds alone, from far enough back
    assert_eq!(
        Timestamp { secs: -2, nanos: 7 }.checked_after_steps(i64::MAX, 1),
        Some(Timestamp { secs: i64::MAX - 2, nanos: 7 })
    );
    assert_eq!(
        Timestamp { secs: i64::MIN, nanos: 7 }.checked_after_steps(i64::MAX, 2),
        Some(Timestamp { secs: i64::MAX - 1, nanos: 7 })
    );
}
