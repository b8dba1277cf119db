use aviutl_output::text::{
    format_bool, format_signed, format_unsigned, parse_bool, parse_i32, parse_u16, parse_u32,
    parse_u8, parse_unsigned, text_equals,
};
use aviutl_output::wide::to_wide_string;

#[test]
fn unsigned_numbers_are_read_like_the_standard_parser() {
    for text in [
        "0", "7", "42", "007", "+5", "+0", "255", "256", "65535", "65536", "4294967295",
        "4294967296", "18446744073709551615", "18446744073709551616", "99999999999999999999999",
        "", "+", "-", "-1", "-0", "1 ", " 1", "1a", "a1", "1.0", "1e3", "+-1", "++1", "１２",
        "0x10", "1_000",
    ] {
        assert_eq!(parse_u8(text), text.parse::<u8>().ok(), "{:?}", text);
        assert_eq!(parse_u16(text), text.parse::<u16>().ok(), "{:?}", text);
        assert_eq!(parse_u32(text), text.parse::<u32>().ok(), "{:?}", text);
        assert_eq!(parse_unsigned(text, u64::MAX), text.parse::<u64>().ok(), "{:?}", text);
    }
}

#[test]
fn signed_numbers_are_read_like_the_standard_parser() {
    for text in [
        "0", "-0", "+0", "7", "-7", "+7", "2147483647", "2147483648", "-2147483648",
        "-2147483649", "9223372036854775807", "-9223372036854775807", "-9223372036854775808",
        "", "+", "-", "--1", "-+1", "+-1", "1-", "- 1", "-1.5", "−1",
    ] {
        assert_eq!(parse_i32(text), text.parse::<i32>().ok(), "{:?}", text);
    }
    assert_eq!(parse_i32("-2147483648"), Some(i32::MIN));
    assert_eq!(parse_i32("2147483647"), Some(i32::MAX));
    assert_eq!(parse_i32("-0012"), Some(-12));
}

#[test]
fn unsigned_bound_is_kept() {
    assert_eq!(parse_unsigned("100", 100), Some(100));
    assert_eq!(parse_unsigned("101", 100), None);
    assert_eq!(parse_unsigned("0", 0), Some(0));
    assert_eq!(parse_unsigned("1", 0), None);
    assert_eq!(parse_unsigned("000", 0), Some(0));
}

#[test]
fn numbers_are_written_without_padding() {
    for n in [0u64, 1, 9, 10, 11, 99, 100, 101, 4294967295, u64::MAX] {
        assert_eq!(format_unsigned(n), n.to_string());
        assert_eq!(parse_unsigned(&format_unsigned(n), u64::MAX), Some(n));
    }
    for n in [0i64, 1, -1, 9, -9, 10, -10, 2147483647, -2147483648, i64::MAX, i64::MIN] {
        assert_eq!(format_signed(n), n.to_string());
    }
    for n in [0i32, 1, -1, 75, -75, i32::MAX, i32::MIN] {
        assert_eq!(parse_i32(&format_signed(n as i64)), Some(n));
    }
}

#[test]
fn truth_values_are_read_and_written() {
    assert_eq!(parse_bool("true"), Some(true));
    assert_eq!(parse_bool("false"), Some(false));
    for text in ["", "True", "TRUE", "1", "0", "yes", "true ", " false", "truefalse"] {
        assert_eq!(parse_bool(text), text.parse::<bool>().ok(), "{:?}", text);
        assert_eq!(parse_bool(text), None);
    }
    assert_eq!(format_bool(true), "true");
    assert_eq!(format_bool(false), "false");
    assert_eq!(parse_bool(&format_bool(true)), Some(true));
    assert_eq!(parse_bool(&format_bool(false)), Some(false));
}

#[test]
fn texts_are_compared_by_content() {
    assert!(text_equals("abc", "abc"));
    assert!(text_equals("", ""));
    assert!(!text_equals("abc", "abd"));
    assert!(!text_equals("abc", "ab"));
    assert!(!text_equals("", "a"));
}

#[test]
fn wide_string_ends_with_zero() {
    assert_eq!(to_wide_string(""), vec![0]);
    assert_eq!(to_wide_string("A"), vec![0x41, 0]);
    assert_eq!(to_wide_string("エラー"), vec![0x30A8, 0x30E9, 0x30FC, 0]);
}

#[test]
fn wide_string_uses_surrogate_pairs() {
    // U+1F600 is D83D DE00 in UTF-16
    assert_eq!(to_wide_string("\u{1F600}"), vec![0xD83D, 0xDE00, 0]);
    assert_eq!(to_wide_string("\u{10000}"), vec![0xD800, 0xDC00, 0]);
    assert_eq!(to_wide_string("\u{10FFFF}"), vec![0xDBFF, 0xDFFF, 0]);
    assert_eq!(to_wide_string("\u{FFFF}"), vec![0xFFFF, 0]);
    assert_eq!(to_wide_string("\u{D7FF}\u{E000}"), vec![0xD7FF, 0xE000, 0]);
}

#[test]
fn wide_string_agrees_with_the_standard_encoder() {
    for text in [
        "PNG Files (*.png)\0*.png\0All Files (*)\0*\0",
        "APNG出力プラグイン",
        "a\u{1F600}b\u{10FFFF}c\u{7FF}\u{800}",
    ] {
        let expected: Vec<u16> = text.encode_utf16().chain(std::iter::once(0)).collect();
        assert_eq!(to_wide_string(text), expected);
    }
}
