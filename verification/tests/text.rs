use remember::text::{
    is_white_space_char, push_decimal, push_signed_decimal, push_two_digits, trim,
};

fn decimal_of(n: u64) -> String {
    let mut s = String::new();
    push_decimal(&mut s, n);
    s
}

fn signed_of(n: i64) -> String {
    let mut s = String::new();
    push_signed_decimal(&mut s, n);
    s
}

fn two_digits_of(n: u64) -> String {
    let mut s = String::new();
    push_two_digits(&mut s, n);
    s
}

#[test]
fn decimal_of_small_and_large_numbers() {
    assert_eq!(decimal_of(0), "0");
    assert_eq!(decimal_of(7), "7");
    assert_eq!(decimal_of(10), "10");
    assert_eq!(decimal_of(1234567890), "1234567890");
    assert_eq!(decimal_of(u64::MAX), "18446744073709551615");
}

#[test]
fn decimal_appends_to_what_is_there() {
    let mut s = String::from("id=");
    push_decimal(&mut s, 42);
    assert_eq!(s, "id=42");
}

#[test]
fn decimal_agrees_with_std_formatting() {
    for n in (0u64..2000).chain([99_999, 100_000, 4_294_967_295, u64::MAX - 1]) {
        assert_eq!(decimal_of(n), format!("{}", n));
    }
}

#[test]
fn decimal_reads_back() {
    for n in [0u64, 5, 10, 909, 1_000_001, u64::MAX] {
        assert_eq!(decimal_of(n).parse::<u64>().unwrap(), n);
    }
}

#[test]
fn signed_decimal_values() {
    assert_eq!(signed_of(0), "0");
    assert_eq!(signed_of(15), "15");
    assert_eq!(signed_of(-42), "-42");
    assert_eq!(signed_of(i64::MIN), "-9223372036854775808");
    assert_eq!(signed_of(i64::MAX), "9223372036854775807");
}

#[test]
fn two_digits_pads_single_digits() {
    assert_eq!(two_digits_of(0), "00");
    assert_eq!(two_digits_of(7), "07");
    assert_eq!(two_digits_of(26), "26");
    assert_eq!(two_digits_of(123), "123");
    for n in 0u64..150 {
        assert_eq!(two_digits_of(n), format!("{:02}", n));
    }
}

#[test]
fn white_space_agrees_with_std_for_every_char() {
    for u in 0u32..=0x10FFFF {
        if let Some(c) = char::from_u32(u) {
            assert_eq!(is_white_space_char(c), c.is_whitespace(), "char {:#x}", u);
        }
    }
}

#[test]
fn trim_removes_surrounding_white_space() {
    assert_eq!(trim("  buy milk  "), "buy milk");
    assert_eq!(trim("\t\nread a book\r\n"), "read a book");
    assert_eq!(trim("\u{3000}x\u{a0}"), "x");
    assert_eq!(trim("a  b"), "a  b");
    assert_eq!(trim("  a  b  "), "a  b");
}

#[test]
fn trim_of_blank_text_is_empty() {
    assert_eq!(trim(""), "");
    assert_eq!(trim("   "), "");
    assert_eq!(trim("\u{2028}\u{2009}\u{85}"), "");
}

#[test]
fn trim_agrees_with_std() {
    for s in ["", " ", "x", " x", "x ", " éà ", "\u{200B}x\u{200B}", "\u{1680}日本\u{205F}", "a\u{2000}b"] {
        assert_eq!(trim(s), s.trim());
    }
}

#[test]
fn trim_is_idempotent() {
    for s in ["  a b  ", "\n\n", "z", "\u{3000} q \u{3000}"] {
        let once = trim(s);
        assert_eq!(trim(&once), once);
    }
}
