use ut181a_cli::text::{decimal_string, format_duration, parse_bounded, str_eq, two_digit_string};

#[test]
fn duration_zero() {
    assert_eq!(format_duration(0), "0:00:00");
}

#[test]
fn duration_under_a_minute() {
    assert_eq!(format_duration(59), "0:00:59");
}

#[test]
fn duration_over_an_hour() {
    assert_eq!(format_duration(3661), "1:01:01");
}

#[test]
fn duration_hundred_hours() {
    assert_eq!(format_duration(360000), "100:00:00");
}

#[test]
fn duration_last_second_of_a_day() {
    assert_eq!(format_duration(86399), "23:59:59");
}

#[test]
fn duration_largest() {
    assert_eq!(format_duration(u64::MAX), "5124095576030431:00:15");
}

#[test]
fn decimal_strings() {
    assert_eq!(decimal_string(0), "0");
    assert_eq!(decimal_string(7), "7");
    assert_eq!(decimal_string(10), "10");
    assert_eq!(decimal_string(1234567890), "1234567890");
    assert_eq!(decimal_string(u64::MAX), "18446744073709551615");
}

#[test]
fn two_digit_strings() {
    assert_eq!(two_digit_string(0), "00");
    assert_eq!(two_digit_string(5), "05");
    assert_eq!(two_digit_string(42), "42");
}

#[test]
fn parse_plain_numbers() {
    assert_eq!(parse_bounded("0", 65535), Some(0));
    assert_eq!(parse_bounded("42", 65535), Some(42));
    assert_eq!(parse_bounded("+7", 65535), Some(7));
    assert_eq!(parse_bounded("65535", 65535), Some(65535));
    assert_eq!(parse_bounded("0065535", 65535), Some(65535));
    assert_eq!(parse_bounded("4294967295", 4294967295), Some(4294967295));
}

#[test]
fn parse_refuses_malformed_numbers() {
    assert_eq!(parse_bounded("", 65535), None);
    assert_eq!(parse_bounded("+", 65535), None);
    assert_eq!(parse_bounded("-1", 65535), None);
    assert_eq!(parse_bounded("abc", 65535), None);
    assert_eq!(parse_bounded("12x", 65535), None);
    assert_eq!(parse_bounded(" 1", 65535), None);
    assert_eq!(parse_bounded("65536", 65535), None);
    assert_eq!(parse_bounded("4294967296", 4294967295), None);
    assert_eq!(parse_bounded("99999999999999999999999", 4294967295), None);
}

#[test]
fn string_equality() {
    assert!(str_eq("vac", "vac"));
    assert!(!str_eq("vac", "vdc"));
    assert!(!str_eq("vac", "vac-rel"));
    assert!(str_eq("", ""));
}
