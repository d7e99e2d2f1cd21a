use speed_leds::reader::{parse_or_zero, speed_from_source};

#[test]
fn parses_a_plain_reading() {
    assert_eq!(parse_or_zero(b"42"), 42);
    assert_eq!(parse_or_zero(b"0"), 0);
    assert_eq!(parse_or_zero(b"100"), 100);
}

#[test]
fn trims_surrounding_whitespace() {
    assert_eq!(parse_or_zero(b"  42\n"), 42);
    assert_eq!(parse_or_zero(b"\t7\r\n"), 7);
    assert_eq!(parse_or_zero(b" 0 "), 0);
}

#[test]
fn malformed_readings_degrade_to_zero() {
    assert_eq!(parse_or_zero(b"abc"), 0);
    assert_eq!(parse_or_zero(b""), 0);
    assert_eq!(parse_or_zero(b"-5"), 0);
    assert_eq!(parse_or_zero(b"   "), 0);
    assert_eq!(parse_or_zero(b"4 2"), 0);
    assert_eq!(parse_or_zero(b"42x"), 0);
    assert_eq!(parse_or_zero(b"x42"), 0);
    assert_eq!(parse_or_zero(b"4.2"), 0);
}

#[test]
fn sign_handling() {
    // A single leading plus is accepted, as a decimal integer parse does.
    assert_eq!(parse_or_zero(b"+42"), 42);
    assert_eq!(parse_or_zero(b"+"), 0);
    assert_eq!(parse_or_zero(b"++42"), 0);
    assert_eq!(parse_or_zero(b"-0"), 0);
}

#[test]
fn leading_zeros_are_plain_digits() {
    assert_eq!(parse_or_zero(b"042"), 42);
    assert_eq!(parse_or_zero(b"000"), 0);
}

#[test]
fn overflow_degrades_to_zero() {
    assert_eq!(parse_or_zero(b"4294967295"), u32::MAX);
    assert_eq!(parse_or_zero(b"4294967296"), 0);
    assert_eq!(parse_or_zero(b"99999999999999999999"), 0);
}

#[test]
fn absent_source_degrades_to_zero() {
    assert_eq!(speed_from_source(None), 0);
}

#[test]
fn present_source_is_parsed() {
    assert_eq!(speed_from_source(Some(b"17\n")), 17);
    assert_eq!(speed_from_source(Some(b"garbage")), 0);
}
