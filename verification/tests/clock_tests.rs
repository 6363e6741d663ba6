use frostwatch::timestamp::encode_timestamp;
use frostwatch::{fields_to_timestamp, now_utc, parse_timestamp, today_local, Timestamp};

#[test]
fn clock_yields_genuine_timestamps() {
    let t = now_utc().expect("the current year fits four digits");
    assert!(t.well_formed());
    assert!(t.year >= 2023);
    let l = today_local().expect("the current year fits four digits");
    assert!(l.well_formed());
}

#[test]
fn clock_fields_become_the_same_timestamp() {
    assert_eq!(
        fields_to_timestamp((2024, 2, 29, 23, 59, 59)),
        Some(Timestamp { year: 2024, month: 2, day: 29, hour: 23, minute: 59, second: 59 })
    );
    assert_eq!(
        fields_to_timestamp((9999, 12, 31, 0, 0, 0)),
        Some(Timestamp { year: 9999, month: 12, day: 31, hour: 0, minute: 0, second: 0 })
    );
}

#[test]
fn clock_fields_outside_the_calendar_are_refused() {
    // A day the month does not have, and years outside four digits.
    assert_eq!(fields_to_timestamp((2023, 2, 29, 0, 0, 0)), None);
    assert_eq!(fields_to_timestamp((2023, 4, 31, 0, 0, 0)), None);
    assert_eq!(fields_to_timestamp((10000, 1, 1, 0, 0, 0)), None);
    assert_eq!(fields_to_timestamp((-1, 1, 1, 0, 0, 0)), None);
}

#[test]
fn current_instant_round_trips_through_the_wire_form() {
    let t = now_utc().expect("the current year fits four digits");
    let mut bytes = Vec::new();
    encode_timestamp(&mut bytes, &t);
    assert_eq!(bytes.len(), 20);
    assert_eq!(parse_timestamp(&bytes, 0), Some(t));
}
