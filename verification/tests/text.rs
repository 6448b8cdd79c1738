use hyper_bed_caller::text::append_decimal;
use hyper_bed_caller::text::append_signed_decimal;
use hyper_bed_caller::text::char_is_space;
use hyper_bed_caller::text::chars_of;
use hyper_bed_caller::text::find_char;
use hyper_bed_caller::text::find_space;
use hyper_bed_caller::text::parse_digits;
use hyper_bed_caller::text::parse_index;
use hyper_bed_caller::text::parse_number;
use hyper_bed_caller::text::parse_unsigned;
use hyper_bed_caller::text::same_text;
use hyper_bed_caller::text::trim_bounds;
use hyper_bed_caller::text::utf16_units;

fn number(text: &str) -> Option<i32> {
    let chars = chars_of(text);
    parse_number(&chars, 0, chars.len())
}

#[test]
fn white_space_is_what_std_takes_for_it() {
    for code in 0..=0x10FFFFu32 {
        if let Some(c) = char::from_u32(code) {
            assert_eq!(char_is_space(c), c.is_whitespace(), "U+{:04X}", code);
        }
    }
}

#[test]
fn numbers_parse_as_in_std() {
    for text in [
        "0", "7", "23", "007", "+5", "-5", "-0", "+0", "", "+", "-", "--1", "+-1", "1a", " 1", "1 ",
        "2147483647", "2147483648", "-2147483648", "-2147483649", "99999999999999999999999",
        "0000000000000000000000000000012", "１２", "1_000",
    ] {
        assert_eq!(number(text), text.parse::<i32>().ok(), "{:?}", text);
        assert_eq!(parse_index(text), text.parse::<usize>().ok(), "{:?}", text);
    }
    assert_eq!(parse_index("18446744073709551615"), "18446744073709551615".parse::<usize>().ok());
    assert_eq!(parse_index("18446744073709551616"), None);
}

#[test]
fn digits_and_bounds() {
    let chars = chars_of("ab123cd");
    assert_eq!(parse_digits(&chars, 2, 5, 1000), Some(123));
    assert_eq!(parse_digits(&chars, 2, 5, 122), None);
    assert_eq!(parse_digits(&chars, 2, 5, 123), Some(123));
    assert_eq!(parse_digits(&chars, 2, 2, 1000), None);
    assert_eq!(parse_digits(&chars, 1, 5, 1000), None);
    assert_eq!(parse_unsigned(&chars_of("+12"), 0, 3, 99), Some(12));
    assert_eq!(parse_unsigned(&chars_of("-12"), 0, 3, 99), None);
}

#[test]
fn decimal_writes_as_std_does() {
    for n in [0u64, 1, 9, 10, 11, 99, 100, 2024, u64::MAX] {
        let mut out = String::from("x");
        append_decimal(&mut out, n);
        assert_eq!(out, format!("x{}", n));
    }
    for n in [0i64, -1, 1, -10, 2024, -262143, i64::MIN, i64::MAX] {
        let mut out = String::new();
        append_signed_decimal(&mut out, n);
        assert_eq!(out, format!("{}", n));
    }
}

#[test]
fn trimming_and_searching() {
    let chars = chars_of(" \t a b\u{3000}");
    assert_eq!(trim_bounds(&chars, 0, chars.len()), (3, 6));
    assert_eq!(trim_bounds(&chars, 0, 3), (3, 3));
    assert_eq!(trim_bounds(&chars, 3, 6), (3, 6));
    assert_eq!(find_space(&chars, 3, 6), Some(1));
    assert_eq!(find_space(&chars, 3, 4), None);
    assert_eq!(find_char(&chars, 0, chars.len(), 'b'), Some(5));
    assert_eq!(find_char(&chars, 0, 5, 'b'), None);
    assert_eq!(chars_of("零a"), vec!['零', 'a']);
}

#[test]
fn texts_compare_exactly() {
    assert!(same_text("", ""));
    assert!(same_text("零一二", "零一二"));
    assert!(!same_text("零一二", "零一三"));
    assert!(!same_text("abc", "abc "));
    assert!(!same_text("abc", "Abc"));
}

#[test]
fn utf16_counts_units() {
    for text in ["", "abc", "点击查看帮助。", "是\u{1f980}女仆。", "\u{1f980}\u{1f980}"] {
        assert_eq!(utf16_units(text), text.encode_utf16().count() as u64, "{:?}", text);
    }
}
