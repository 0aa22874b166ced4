use chrono::{Datelike, Duration, NaiveDate};
use holotype::date::Date;
use holotype::formatter::{format_date_relative, relative_label, to_decimal, DecodedName};

fn as_date(d: NaiveDate) -> Date {
    Date::new(d.year(), d.month(), d.day()).unwrap()
}

fn date_relative(date: NaiveDate, reference: NaiveDate) -> String {
    format_date_relative(as_date(date), as_date(reference))
}

#[test]
fn test_format_today() {
    let reference = NaiveDate::from_ymd_opt(2026, 1, 15).unwrap();
    let result = date_relative(reference, reference);
    assert!(result.contains("15.1.2026"));
    assert!(result.contains("(today)"));
}

#[test]
fn test_format_yesterday() {
    let reference = NaiveDate::from_ymd_opt(2026, 1, 15).unwrap();
    let yesterday = reference - Duration::days(1);
    let result = date_relative(yesterday, reference);
    assert!(result.contains("14.1.2026"));
    assert!(result.contains("(yesterday)"));
}

#[test]
fn test_format_tomorrow() {
    let reference = NaiveDate::from_ymd_opt(2026, 1, 15).unwrap();
    let tomorrow = reference + Duration::days(1);
    let result = date_relative(tomorrow, reference);
    assert!(result.contains("16.1.2026"));
    assert!(result.contains("(tomorrow)"));
    assert!(!result.contains("yet to come"));
}

#[test]
fn test_format_past_one_day() {
    let reference = NaiveDate::from_ymd_opt(2026, 1, 15).unwrap();
    let past = reference - Duration::days(1);
    let result = date_relative(past, reference);
    assert!(result.contains("(yesterday)"));
}

#[test]
fn test_format_past_multiple_days() {
    let reference = NaiveDate::from_ymd_opt(2026, 1, 15).unwrap();
    let past = reference - Duration::days(5);
    let result = date_relative(past, reference);
    assert!(result.contains("10.1.2026"));
    assert!(result.contains("(5 days ago)"));
}

#[test]
fn test_format_future_two_days() {
    let reference = NaiveDate::from_ymd_opt(2026, 1, 15).unwrap();
    let future = reference + Duration::days(2);
    let result = date_relative(future, reference);
    assert!(result.contains("17.1.2026"));
    assert!(result.contains("(in 2 days, yet to come!)"));
}

#[test]
fn test_format_future_multiple_days() {
    let reference = NaiveDate::from_ymd_opt(2026, 1, 15).unwrap();
    let future = reference + Duration::days(3);
    let result = date_relative(future, reference);
    assert!(result.contains("18.1.2026"));
    assert!(result.contains("(in 3 days, yet to come!)"));
}

#[test]
fn test_date_format_no_leading_zeros() {
    let date = NaiveDate::from_ymd_opt(2026, 1, 4).unwrap();
    let reference = NaiveDate::from_ymd_opt(2026, 1, 1).unwrap();
    let result = date_relative(date, reference);
    assert!(result.contains("4.1.2026"));
    assert!(!result.contains("04.01.2026"));
}

#[test]
fn test_prefix_with_salt() {
    let date = Date::new(2026, 1, 15).unwrap();
    let decoded = DecodedName::new("Test name".to_string(), date, 5, "mysalt");

    assert!(decoded.salt.is_some());
    assert_eq!(decoded.salt.as_ref().unwrap(), "mysalt");
}

#[test]
fn test_prefix_without_salt() {
    let date = Date::new(2026, 1, 15).unwrap();
    let decoded = DecodedName::new("Test name".to_string(), date, 5, "");

    assert!(decoded.salt.is_none());
}

#[test]
fn whole_text_across_a_month_and_year_boundary() {
    let date = Date::new(2025, 12, 31).unwrap();
    let today = Date::new(2026, 3, 1).unwrap();
    assert_eq!(format_date_relative(date, today), "31.12.2025 (60 days ago)");
    assert_eq!(format_date_relative(today, date), "1.3.2026 (in 60 days, yet to come!)");
    let leap = Date::new(2024, 2, 29).unwrap();
    let next = Date::new(2024, 3, 1).unwrap();
    assert_eq!(format_date_relative(leap, next), "29.2.2024 (yesterday)");
}

#[test]
fn decimal_and_labels() {
    assert_eq!(to_decimal(0), "0");
    assert_eq!(to_decimal(1203), "1203");
    assert_eq!(to_decimal(u64::MAX), u64::MAX.to_string());
    assert_eq!(relative_label(-12), "(12 days ago)");
    assert_eq!(relative_label(i64::MIN), format!("({} days ago)", 9223372036854775808u64));
}

#[test]
fn header_lines() {
    let date = Date::new(2026, 1, 14).unwrap();
    let today = Date::new(2026, 1, 15).unwrap();
    let salted = DecodedName::new("Hydrocephalus robustus".to_string(), date, 5, "mysalt");
    assert_eq!(salted.header(today), "[mysalt] No. 5, dated 14.1.2026 (yesterday)");
    let plain = DecodedName::new("Hydrocephalus robustus".to_string(), date, 42, "");
    assert_eq!(plain.header(today), "Op. 42, dated 14.1.2026 (yesterday)");
}

#[test]
fn negative_years_are_signed() {
    let date = Date::new(-44, 3, 15).unwrap();
    assert!(format_date_relative(date, date).starts_with("15.3.-44 (today)"));
}
