use ticket_ingest::datetime::{
    days_in_month, is_leap, parse_date, parse_datetime, shift_to_utc, DateTime,
};

#[test]
fn leap_year_rules() {
    assert!(is_leap(2024));
    assert!(!is_leap(2023));
    assert!(!is_leap(1900));
    assert!(is_leap(2000));
    assert_eq!(days_in_month(2024, 2), 29);
    assert_eq!(days_in_month(2023, 2), 28);
    assert_eq!(days_in_month(2025, 4), 30);
    assert_eq!(days_in_month(2025, 12), 31);
}

#[test]
fn date_grammar() {
    let d = parse_date("2025-01-15").expect("a real date parses");
    assert_eq!((d.year, d.month, d.day), (2025, 1, 15));
    assert_eq!((d.hour, d.minute, d.second), (12, 0, 0)); // noon default

    assert!(parse_date("2024-02-29").is_some());
    assert!(parse_date("2023-02-29").is_none());
    assert!(parse_date("2025-13-01").is_none());
    assert!(parse_date("2025-00-10").is_none());
    assert!(parse_date("2025-1-15").is_none()); // not zero-padded
    assert!(parse_date("15/01/2025").is_none());
    assert!(parse_date("2025-01-15 ").is_none());
}

#[test]
fn datetime_grammar() {
    let d = parse_datetime("2025-01-15 10:30:00").expect("space separator parses");
    assert_eq!((d.hour, d.minute, d.second), (10, 30, 0));
    let e = parse_datetime("2025-01-15T23:59:59").expect("T separator parses");
    assert_eq!((e.hour, e.minute, e.second), (23, 59, 59));

    assert!(parse_datetime("2025-01-15 24:00:00").is_none());
    assert!(parse_datetime("2025-01-15 10:60:00").is_none());
    assert!(parse_datetime("2025-01-15_10:30:00").is_none());
    assert!(parse_datetime("2025-01-32 10:30:00").is_none());
}

#[test]
fn utc_shift_carries_across_boundaries() {
    let base = DateTime { year: 2024, month: 12, day: 31, hour: 23, minute: 30, second: 0 };
    // Local at UTC-1: half past eleven at night becomes half past
    // midnight on New Year's Day.
    let forward = shift_to_utc(base, -3600);
    assert_eq!(
        (forward.year, forward.month, forward.day, forward.hour, forward.minute),
        (2025, 1, 1, 0, 30)
    );

    let noon = DateTime { year: 2025, month: 3, day: 1, hour: 12, minute: 0, second: 0 };
    let back = shift_to_utc(noon, 3600);
    assert_eq!((back.month, back.day, back.hour), (3, 1, 11));

    // Borrowing a day across a month boundary, into a leap February.
    let early = DateTime { year: 2024, month: 3, day: 1, hour: 0, minute: 10, second: 0 };
    let borrowed = shift_to_utc(early, 3600);
    assert_eq!((borrowed.year, borrowed.month, borrowed.day, borrowed.hour), (2024, 2, 29, 23));
}
