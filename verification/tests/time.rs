use chrono::{DateTime, FixedOffset, TimeZone};
use frost::time::{Timestamp, DAY_SECONDS, HOUR_SECONDS};

fn stamp(seconds: i64, nanos: u32, offset: i32) -> Timestamp {
    Timestamp { seconds, nanos, offset }
}

fn on_clock(timestamp: &Timestamp) -> DateTime<FixedOffset> {
    FixedOffset::east_opt(timestamp.offset)
        .unwrap()
        .timestamp_opt(timestamp.seconds, timestamp.nanos)
        .unwrap()
}

#[test]
fn instants_are_ordered_by_seconds_then_nanoseconds() {
    assert!(stamp(1, 0, 0).is_before(&stamp(2, 0, 0)));
    assert!(stamp(1, 5, 0).is_before(&stamp(1, 6, 0)));
    assert!(!stamp(1, 5, 0).is_before(&stamp(1, 5, 0)));
    assert!(!stamp(2, 0, 0).is_before(&stamp(1, 999_999_999, 0)));
    assert!(stamp(-1, 999_999_999, 0).is_before(&stamp(0, 0, 0)));
}

#[test]
fn the_offset_does_not_move_the_instant() {
    assert!(!stamp(10, 0, 7_200).is_before(&stamp(10, 0, -3_600)));
    assert!(!stamp(10, 0, -3_600).is_before(&stamp(10, 0, 7_200)));
    assert_ne!(stamp(10, 0, 7_200), stamp(10, 0, -3_600));
}

#[test]
fn the_order_is_that_of_chrono() {
    let stamps = [
        stamp(1_587_434_400, 0, 7_200),
        stamp(1_587_434_400, 1, 0),
        stamp(1_587_434_399, 999_999_999, -3_600),
        stamp(0, 0, 0),
        stamp(-86_401, 500, 3_600),
    ];
    for a in &stamps {
        for b in &stamps {
            assert_eq!(a.is_before(b), on_clock(a) < on_clock(b));
        }
    }
}

#[test]
fn the_pad_is_one_hour() {
    assert_eq!(HOUR_SECONDS, 3_600);
    let start = stamp(1_587_434_400, 250, 7_200);
    let end = start.plus_one_hour();
    assert_eq!(end, stamp(1_587_438_000, 250, 7_200));
    assert_eq!(on_clock(&end), on_clock(&start) + chrono::Duration::hours(1));
}

#[test]
fn the_pad_stops_at_the_end_of_time() {
    assert!(stamp(i64::MAX - 3_600, 0, 0).can_pad());
    assert!(!stamp(i64::MAX - 3_599, 0, 0).can_pad());
    assert_eq!(
        stamp(i64::MAX - 3_600, 7, 60).checked_plus_one_hour(),
        Some(stamp(i64::MAX, 7, 60))
    );
    assert_eq!(stamp(i64::MAX, 0, 0).checked_plus_one_hour(), None);
    assert_eq!(stamp(i64::MIN, 0, 0).checked_plus_one_hour(), Some(stamp(i64::MIN + 3_600, 0, 0)));
}

#[test]
fn the_day_is_counted_on_the_clock() {
    assert_eq!(DAY_SECONDS, 86_400);
    assert_eq!(stamp(0, 0, 0).local_day(), 0);
    assert_eq!(stamp(86_399, 0, 0).local_day(), 0);
    assert_eq!(stamp(86_400, 0, 0).local_day(), 1);
    assert_eq!(stamp(-1, 0, 0).local_day(), -1);
    assert_eq!(stamp(-86_400, 0, 0).local_day(), -1);
    assert_eq!(stamp(-86_401, 0, 0).local_day(), -2);
    assert_eq!(stamp(86_399, 0, 1).local_day(), 1);
    assert_eq!(stamp(0, 0, -1).local_day(), -1);
    assert_eq!(stamp(i64::MAX, 0, i32::MAX).local_day(), 106_751_991_192_155);
    assert_eq!(stamp(i64::MIN, 0, i32::MIN).local_day(), -106_751_991_192_156);
}

#[test]
fn the_day_is_the_date_of_chrono() {
    let epoch = chrono::NaiveDate::from_ymd_opt(1970, 1, 1).unwrap();
    for seconds in [-200_000i64, -86_401, -86_400, -1, 0, 1, 86_399, 1_587_434_400, 1_600_000_000] {
        for offset in [-86_399, -3_600, 0, 1, 7_200, 86_399] {
            let timestamp = stamp(seconds, 0, offset);
            let date = on_clock(&timestamp).date_naive();
            assert_eq!(timestamp.local_day(), (date - epoch).num_days());
        }
    }
}

#[test]
fn dates_are_compared_on_each_clock() {
    // 23:30 and 00:30 on the next day, both at +02:00.
    let evening = stamp(1_587_504_600, 0, 7_200);
    let night = stamp(1_587_508_200, 0, 7_200);
    assert!(!evening.same_date(&night));
    // The same two instants read in UTC fall on one date.
    let evening_utc = stamp(1_587_504_600, 0, 0);
    let night_utc = stamp(1_587_508_200, 0, 0);
    assert!(evening_utc.same_date(&night_utc));
    assert!(evening.same_date(&evening));
}
