//! Decimal numbers as the engine writes them.

use spatial_ref::decimal::parse_i32;

#[test]
fn digits_alone_are_a_number() {
    assert_eq!(parse_i32(b"0"), Some(0));
    assert_eq!(parse_i32(b"7"), Some(7));
    assert_eq!(parse_i32(b"4326"), Some(4326));
    assert_eq!(parse_i32(b"32632"), Some(32632));
}

#[test]
fn a_sign_may_come_first() {
    assert_eq!(parse_i32(b"-1"), Some(-1));
    assert_eq!(parse_i32(b"+5"), Some(5));
    assert_eq!(parse_i32(b"-0"), Some(0));
    assert_eq!(parse_i32(b"+0"), Some(0));
    assert_eq!(parse_i32(b"-4326"), Some(-4326));
}

#[test]
fn leading_zeros_do_not_count() {
    assert_eq!(parse_i32(b"0004"), Some(4));
    assert_eq!(parse_i32(b"-007"), Some(-7));
    assert_eq!(parse_i32(b"00000000000000000000002147483647"), Some(i32::MAX));
}

#[test]
fn the_bounds_of_i32_are_numbers() {
    assert_eq!(parse_i32(b"2147483647"), Some(i32::MAX));
    assert_eq!(parse_i32(b"+2147483647"), Some(i32::MAX));
    assert_eq!(parse_i32(b"-2147483648"), Some(i32::MIN));
}

#[test]
fn one_beyond_the_bounds_is_none() {
    assert_eq!(parse_i32(b"2147483648"), None);
    assert_eq!(parse_i32(b"+2147483648"), None);
    assert_eq!(parse_i32(b"-2147483649"), None);
    assert_eq!(parse_i32(b"99999999999999999999"), None);
    assert_eq!(parse_i32(b"-99999999999999999999"), None);
}

#[test]
fn no_digits_are_no_number() {
    assert_eq!(parse_i32(b""), None);
    assert_eq!(parse_i32(b"+"), None);
    assert_eq!(parse_i32(b"-"), None);
}

#[test]
fn anything_but_digits_after_the_sign_is_no_number() {
    assert_eq!(parse_i32(b"12a"), None);
    assert_eq!(parse_i32(b"a12"), None);
    assert_eq!(parse_i32(b" 12"), None);
    assert_eq!(parse_i32(b"12 "), None);
    assert_eq!(parse_i32(b"1_000"), None);
    assert_eq!(parse_i32(b"1.0"), None);
    assert_eq!(parse_i32(b"--1"), None);
    assert_eq!(parse_i32(b"+-1"), None);
    assert_eq!(parse_i32(b"1-"), None);
    assert_eq!(parse_i32(b"0x10"), None);
    assert_eq!(parse_i32(b"EPSG"), None);
    assert_eq!(parse_i32(b"4326\0"), None);
    assert_eq!(parse_i32(b"/"), None);
    assert_eq!(parse_i32(b":"), None);
}

#[test]
fn bytes_beyond_ascii_are_no_number() {
    assert_eq!(parse_i32("４３２６".as_bytes()), None);
    assert_eq!(parse_i32(&[0xff]), None);
    assert_eq!(parse_i32(&[b'1', 0x80]), None);
}

#[test]
fn reading_agrees_with_std() {
    let texts = [
        "", "0", "-0", "+0", "1", "-1", "+1", "10", "4326", "-4326", "2147483647",
        "2147483648", "-2147483648", "-2147483649", "00012", "+", "-", "++1", "1+", "12x",
        "x", " 1", "1 ", "9999999999", "-9999999999", "2147483650", "21474836470",
    ];
    for text in texts {
        assert_eq!(parse_i32(text.as_bytes()), text.parse::<i32>().ok(), "{text:?}");
    }
}

#[test]
fn what_std_writes_is_read_back() {
    let numbers = [
        0, 1, -1, 9, 10, -10, 99, 100, 4326, 2154, 3025, 32632, -32632, 1_000_000, i32::MAX,
        i32::MIN, i32::MAX - 1, i32::MIN + 1,
    ];
    for n in numbers {
        assert_eq!(parse_i32(format!("{}", n).as_bytes()), Some(n));
    }
}
