//! Tests for expiration-date parsing.

use tastytrade::parse::parse_expiration_date;

const FALLBACK: i64 = 1_000_000;

#[test]
fn test_parse_expiration_date_exact() {
    // 2024-12-20 at 21:00 UTC.
    assert_eq!(parse_expiration_date("2024-12-20", FALLBACK), 1_734_728_400);
    // The epoch day itself, at 21:00 UTC.
    assert_eq!(parse_expiration_date("1970-01-01", FALLBACK), 75_600);
}

#[test]
fn test_parse_expiration_date_leap_years() {
    // 2000 is a leap year (divisible by 400), so February 29 exists.
    assert_eq!(parse_expiration_date("2000-02-29", FALLBACK), 951_858_000);
    // 2100 is not a leap year (divisible by 100 but not 400).
    assert_eq!(parse_expiration_date("2100-02-29", FALLBACK), FALLBACK);
    assert_eq!(parse_expiration_date("2100-03-01", FALLBACK), 4_107_618_000);
}

#[test]
fn test_parse_expiration_date_rejects_bad_text() {
    assert_eq!(parse_expiration_date("", FALLBACK), FALLBACK);
    assert_eq!(parse_expiration_date("not-a-date", FALLBACK), FALLBACK);
    assert_eq!(parse_expiration_date("2024-1-01", FALLBACK), FALLBACK);
    assert_eq!(parse_expiration_date("2024/12/20", FALLBACK), FALLBACK);
    assert_eq!(parse_expiration_date("2024-13-01", FALLBACK), FALLBACK);
    assert_eq!(parse_expiration_date("2024-00-10", FALLBACK), FALLBACK);
    assert_eq!(parse_expiration_date("2024-04-31", FALLBACK), FALLBACK);
    assert_eq!(parse_expiration_date("2024-12-200", FALLBACK), FALLBACK);
}
