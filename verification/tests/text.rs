use mediathekviewweb::text::{
    chars_of, digit, is_whitespace, parse_magnitude, parse_signed, parse_unsigned, push_decimal, text_of,
};

fn chars(s: &str) -> Vec<char> {
    s.chars().collect()
}

#[test]
fn white_space_is_what_the_standard_library_says() {
    let mut code: u32 = 0;
    while code <= 0x10FFFF {
        if let Some(c) = char::from_u32(code) {
            assert_eq!(is_whitespace(c), c.is_whitespace(), "U+{:04X}", code);
        }
        code += 1;
    }
}

#[test]
fn chars_and_text_are_inverse() {
    for s in ["", "a", "gebärdensprache", "日本語 text", "\u{1F600}!"] {
        assert_eq!(chars_of(s), chars(s));
        assert_eq!(text_of(&chars(s)), s);
    }
}

#[test]
fn unsigned_integers_parse_as_in_the_standard_library() {
    for s in [
        "", "0", "7", "007", "60", "+60", "+", "-", "-0", "-5", "+-5", "++5", "5+", " 5", "5 ", "1e3",
        "1.5", "١٢٣", "18446744073709551615", "18446744073709551616", "99999999999999999999999",
        "+18446744073709551615", "000000000000000000000000000001", "0x10", "१",
    ] {
        assert_eq!(parse_unsigned(&chars(s)), s.parse::<u64>().ok(), "{:?}", s);
    }
}

#[test]
fn signed_integers_parse_as_in_the_standard_library() {
    for s in [
        "", "0", "-0", "+0", "7", "-7", "+7", "1700000000", "-1700000000", "+", "-", "--5", "-+5",
        "+-5", "5-", "abc", "12a", "9223372036854775807", "9223372036854775808",
        "-9223372036854775808", "-9223372036854775809", "+9223372036854775807",
        "+9223372036854775808", "-00000000000000000000000009", "1.0", " 1", "1 ",
    ] {
        assert_eq!(parse_signed(&chars(s)), s.parse::<i64>().ok(), "{:?}", s);
    }
}

#[test]
fn magnitude_respects_its_limit() {
    assert_eq!(parse_magnitude(&chars("100"), 100), Some(100));
    assert_eq!(parse_magnitude(&chars("101"), 100), None);
    assert_eq!(parse_magnitude(&chars("0"), 0), Some(0));
    assert_eq!(parse_magnitude(&chars("1"), 0), None);
    assert_eq!(parse_magnitude(&chars(""), 100), None);
    assert_eq!(parse_magnitude(&chars("+1"), 100), None);
    assert_eq!(parse_magnitude(&chars("0000"), 0), Some(0));
}

#[test]
fn digits_are_the_ascii_digits() {
    let expected = ['0', '1', '2', '3', '4', '5', '6', '7', '8', '9'];
    for d in 0..10u8 {
        assert_eq!(digit(d), expected[d as usize]);
    }
}

#[test]
fn decimal_numerals_are_appended() {
    for n in [0u128, 1, 9, 10, 11, 99, 100, 1700000000, u64::MAX as u128, u128::MAX] {
        let mut out = String::from("n=");
        push_decimal(&mut out, n);
        assert_eq!(out, format!("n={}", n));
    }
}
