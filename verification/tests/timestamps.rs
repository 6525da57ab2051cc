use hostbridge::text::{i32_to_decimal, negative_decimal, u64_to_decimal};
use hostbridge::time::{civil_from_days, format_timestamp, leap_year, month_length, year_length};

#[test]
fn decimal_rendering() {
    assert_eq!(u64_to_decimal(0), "0");
    assert_eq!(u64_to_decimal(7), "7");
    assert_eq!(u64_to_decimal(1234567890), "1234567890");
    assert_eq!(u64_to_decimal(u64::MAX), "18446744073709551615");
    assert_eq!(i32_to_decimal(0), "0");
    assert_eq!(i32_to_decimal(-1), "-1");
    assert_eq!(i32_to_decimal(i32::MIN), "-2147483648");
    assert_eq!(negative_decimal(5), "-5");
}

#[test]
fn leap_year_rule() {
    assert!(leap_year(2000));
    assert!(leap_year(2020));
    assert!(!leap_year(1900));
    assert!(!leap_year(2021));
    assert_eq!(year_length(2000), 366);
    assert_eq!(year_length(1900), 365);
    assert_eq!(month_length(2020, 2), 29);
    assert_eq!(month_length(2021, 2), 28);
    assert_eq!(month_length(2021, 12), 31);
}

#[test]
fn civil_dates_from_day_counts() {
    assert_eq!(civil_from_days(0), (1970, 1, 1));
    assert_eq!(civil_from_days(31), (1970, 2, 1));
    assert_eq!(civil_from_days(365), (1971, 1, 1));
    assert_eq!(civil_from_days(789), (1972, 2, 29));
    assert_eq!(civil_from_days(18321), (2020, 2, 29));
}

#[test]
fn timestamp_at_the_epoch() {
    assert_eq!(format_timestamp(0), "1970-01-01T00:00:00.000000000+00:00");
}

#[test]
fn timestamp_with_subseconds() {
    assert_eq!(format_timestamp(1_000_000_001), "1970-01-01T00:00:01.000000001+00:00");
    assert_eq!(format_timestamp(86_399_999_999_999), "1970-01-01T23:59:59.999999999+00:00");
    assert_eq!(format_timestamp(86_400_000_000_000), "1970-01-02T00:00:00.000000000+00:00");
}

#[test]
fn timestamp_on_a_leap_day() {
    let nanos = 11_016 * 86_400_000_000_000;
    assert_eq!(format_timestamp(nanos), "2000-02-29T00:00:00.000000000+00:00");
    let nanos = 18_321 * 86_400_000_000_000 + (12 * 3600 + 34 * 60 + 56) * 1_000_000_000 + 789;
    assert_eq!(format_timestamp(nanos), "2020-02-29T12:34:56.000000789+00:00");
}
