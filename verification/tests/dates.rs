use corpo::dates::CalendarDate;
use corpo::dates::OrdinalDate;
use corpo::dates::days_in_month;
use corpo::dates::days_in_year;
use corpo::dates::decode_created_at;
use corpo::dates::is_leap_year;
use corpo::dates::iso_midnight_utc;
use corpo::dates::to_calendar;

fn vector(year: i64, ordinal: i64) -> Vec<i64> {
    vec![year, ordinal, 0, 0, 0, 0, 0, 0, 0]
}

#[test]
fn canonical_vector_decodes_to_february_fourteenth() {
    let decoded = decode_created_at(&vector(2023, 45)).expect("vector should decode");
    assert_eq!(decoded, OrdinalDate { year: 2023, ordinal: 45 });
    let date = to_calendar(decoded);
    assert_eq!(date, CalendarDate { year: 2023, month: 2, day: 14 });
    assert_eq!(iso_midnight_utc(&date), "2023-02-14T00:00:00Z");
}

#[test]
fn first_day_of_year() {
    let date = to_calendar(OrdinalDate { year: 2022, ordinal: 1 });
    assert_eq!(date, CalendarDate { year: 2022, month: 1, day: 1 });
    assert_eq!(iso_midnight_utc(&date), "2022-01-01T00:00:00Z");
}

#[test]
fn leap_day_decodes() {
    let date = to_calendar(OrdinalDate { year: 2024, ordinal: 60 });
    assert_eq!(date, CalendarDate { year: 2024, month: 2, day: 29 });
}

#[test]
fn last_day_of_leap_year() {
    let date = to_calendar(OrdinalDate { year: 2024, ordinal: 366 });
    assert_eq!(date, CalendarDate { year: 2024, month: 12, day: 31 });
}

#[test]
fn last_day_of_common_year() {
    let date = to_calendar(OrdinalDate { year: 2023, ordinal: 365 });
    assert_eq!(date, CalendarDate { year: 2023, month: 12, day: 31 });
}

#[test]
fn ordinal_past_year_end_is_rejected() {
    assert_eq!(decode_created_at(&vector(2023, 366)), None);
    assert!(decode_created_at(&vector(2024, 366)).is_some());
    assert_eq!(decode_created_at(&vector(2024, 367)), None);
}

#[test]
fn zero_and_negative_components_are_rejected() {
    assert_eq!(decode_created_at(&vector(2023, 0)), None);
    assert_eq!(decode_created_at(&vector(0, 45)), None);
    assert_eq!(decode_created_at(&vector(-2023, 45)), None);
    assert_eq!(decode_created_at(&vector(2023, -45)), None);
}

#[test]
fn year_out_of_range_is_rejected() {
    assert_eq!(decode_created_at(&vector(10000, 1)), None);
    assert!(decode_created_at(&vector(9999, 1)).is_some());
}

#[test]
fn wrong_component_count_is_rejected() {
    assert_eq!(decode_created_at(&vec![2023, 45, 0, 0, 0, 0, 0, 0]), None);
    assert_eq!(decode_created_at(&vec![2023, 45, 0, 0, 0, 0, 0, 0, 0, 0]), None);
    assert_eq!(decode_created_at(&Vec::new()), None);
}

#[test]
fn century_leap_rule() {
    assert!(!is_leap_year(1900));
    assert!(is_leap_year(2000));
    assert!(is_leap_year(2024));
    assert!(!is_leap_year(2023));
    assert_eq!(days_in_year(1900), 365);
    assert_eq!(days_in_year(2000), 366);
    assert_eq!(days_in_month(1900, 2), 28);
    assert_eq!(days_in_month(2000, 2), 29);
    assert_eq!(days_in_month(2023, 4), 30);
    assert_eq!(days_in_month(2023, 12), 31);
}

#[test]
fn iso_rendering_pads_short_years() {
    let date = to_calendar(OrdinalDate { year: 800, ordinal: 9 });
    assert_eq!(iso_midnight_utc(&date), "0800-01-09T00:00:00Z");
}
