use coldmaps::text::decimal;
use coldmaps::text::decimal_two_digits;
use coldmaps::text::parse_bool;
use coldmaps::text::parse_u32;
use coldmaps::text::parse_unsigned;
use coldmaps::text::parse_usize;

#[test]
fn parse_u32_reads_plain_numbers() {
    assert_eq!(parse_u32("0"), Some(0));
    assert_eq!(parse_u32("7"), Some(7));
    assert_eq!(parse_u32("0042"), Some(42));
    assert_eq!(parse_u32("4294967295"), Some(u32::MAX));
}

#[test]
fn parse_u32_accepts_a_leading_plus() {
    assert_eq!(parse_u32("+15"), Some(15));
    assert_eq!(parse_u32("+"), None);
    assert_eq!(parse_u32("++1"), None);
}

#[test]
fn parse_u32_rejects_what_is_no_number() {
    assert_eq!(parse_u32(""), None);
    assert_eq!(parse_u32("-1"), None);
    assert_eq!(parse_u32("12a"), None);
    assert_eq!(parse_u32(" 12"), None);
    assert_eq!(parse_u32("12 "), None);
    assert_eq!(parse_u32("m_iTeam"), None);
    assert_eq!(parse_u32("١٢"), None);
    assert_eq!(parse_u32("1é"), None);
}

#[test]
fn parse_u32_rejects_overflow() {
    assert_eq!(parse_u32("4294967296"), None);
    assert_eq!(parse_u32("99999999999999999999999999"), None);
}

#[test]
fn parse_u32_agrees_with_std() {
    for text in ["0", "1", "+1", "-0", "010", "4294967295", "4294967296", "", "+", "3.5", "1e3", "0x10"] {
        assert_eq!(parse_u32(text), text.parse::<u32>().ok(), "{}", text);
    }
}

#[test]
fn parse_usize_agrees_with_std() {
    for text in ["0", "18446744073709551615", "18446744073709551616", "+18446744073709551615", "12", "x"] {
        assert_eq!(parse_usize(text), text.parse::<usize>().ok(), "{}", text);
    }
}

#[test]
fn parse_unsigned_honours_the_bound() {
    assert_eq!(parse_unsigned("255", 255), Some(255));
    assert_eq!(parse_unsigned("256", 255), None);
    assert_eq!(parse_unsigned("0", 0), Some(0));
    assert_eq!(parse_unsigned("1", 0), None);
    assert_eq!(parse_unsigned("18446744073709551615", u64::MAX), Some(u64::MAX));
}

#[test]
fn parse_bool_reads_the_two_words_only() {
    assert_eq!(parse_bool("true"), Some(true));
    assert_eq!(parse_bool("false"), Some(false));
    assert_eq!(parse_bool("True"), None);
    assert_eq!(parse_bool("1"), None);
    assert_eq!(parse_bool(""), None);
}

#[test]
fn decimal_writes_numbers() {
    assert_eq!(decimal(0), "0");
    assert_eq!(decimal(9), "9");
    assert_eq!(decimal(10), "10");
    assert_eq!(decimal(1234567890), "1234567890");
    assert_eq!(decimal(u64::MAX), "18446744073709551615");
}

#[test]
fn decimal_two_digits_pads_single_digits() {
    assert_eq!(decimal_two_digits(0), "00");
    assert_eq!(decimal_two_digits(7), "07");
    assert_eq!(decimal_two_digits(10), "10");
    assert_eq!(decimal_two_digits(59), "59");
    assert_eq!(decimal_two_digits(123), "123");
}

#[test]
fn decimal_and_parse_are_inverse() {
    for n in [0u64, 1, 9, 10, 99, 100, 65535, 4294967295] {
        assert_eq!(parse_unsigned(&decimal(n), u64::MAX), Some(n));
    }
}
