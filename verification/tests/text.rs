//! Tests for the byte-level text helpers: trimming, prefix stripping,
//! decimal parsing and formatting, and the text conversion of payloads.

use adcmt7351::device::decode_response_text;
use adcmt7351::text::parse_numeric_response;
use adcmt7351::text::parse_u16;
use adcmt7351::text::response_body;
use adcmt7351::text::u16_decimal;
use adcmt7351::DriverError;

#[test]
fn parse_u16_plain_digits() {
    assert_eq!(parse_u16(b"0"), Some(0));
    assert_eq!(parse_u16(b"123"), Some(123));
    assert_eq!(parse_u16(b"65535"), Some(65535));
}

#[test]
fn parse_u16_accepts_leading_plus() {
    assert_eq!(parse_u16(b"+42"), Some(42));
}

#[test]
fn parse_u16_rejects_bad_input() {
    assert_eq!(parse_u16(b""), None);
    assert_eq!(parse_u16(b"+"), None);
    assert_eq!(parse_u16(b"abc"), None);
    assert_eq!(parse_u16(b"12a"), None);
    assert_eq!(parse_u16(b"-1"), None);
    assert_eq!(parse_u16(b"1 2"), None);
}

#[test]
fn parse_u16_rejects_overflow() {
    assert_eq!(parse_u16(b"65536"), None);
    assert_eq!(parse_u16(b"999999"), None);
}

#[test]
fn u16_decimal_formats() {
    assert_eq!(u16_decimal(0), b"0".to_vec());
    assert_eq!(u16_decimal(7), b"7".to_vec());
    assert_eq!(u16_decimal(100), b"100".to_vec());
    assert_eq!(u16_decimal(65535), b"65535".to_vec());
}

#[test]
fn decimal_round_trip() {
    for n in [0u16, 1, 9, 10, 99, 100, 1000, 12345, 65535] {
        assert_eq!(parse_u16(&u16_decimal(n)), Some(n));
    }
}

#[test]
fn response_body_trims_and_strips_prefix() {
    assert_eq!(response_body("  SPN100 \r\n", b"SPN"), b"100".to_vec());
    assert_eq!(response_body("SPN100", b"SPN"), b"100".to_vec());
    assert_eq!(response_body("100", b"SPN"), b"100".to_vec());
    assert_eq!(response_body("\tF1\n", b"F"), b"1".to_vec());
}

#[test]
fn response_body_keeps_unrelated_text() {
    assert_eq!(response_body("XY7", b"SPN"), b"XY7".to_vec());
    assert_eq!(response_body("", b"SPN"), Vec::<u8>::new());
}

#[test]
fn parse_numeric_response_combines_strip_and_parse() {
    assert_eq!(parse_numeric_response("SPN100", b"SPN"), Some(100));
    assert_eq!(parse_numeric_response(" 42 ", b"SPN"), Some(42));
    assert_eq!(parse_numeric_response("SPN", b"SPN"), None);
    assert_eq!(parse_numeric_response("SPNx", b"SPN"), None);
}

#[test]
fn decode_response_text_reads_framed_payload() {
    // A framed reply declaring two payload bytes: the text is the
    // payload, not the buffer.
    let buffer = [
        0x02, 0, 0, 0, 0x02, 0, 0, 0, 0, 0, 0, 0, 0x34, 0x2E, 0x32, 0x0D, 0x0A,
    ];
    assert_eq!(decode_response_text(&buffer), Ok("4.".to_string()));
}

#[test]
fn decode_response_text_reads_raw_payload() {
    assert_eq!(
        decode_response_text(&[0x34, 0x2E, 0x32, 0x0D, 0x0A]),
        Ok("4.2".to_string())
    );
}

#[test]
fn decode_response_text_rejects_invalid_utf8() {
    assert_eq!(
        decode_response_text(&[0xFF, 0xFE]),
        Err(DriverError::NonTextResponse)
    );
}
