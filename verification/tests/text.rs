use chunirichpresence::text::{
    append_bool, append_decimal, append_number, append_optional_bool, append_optional_int, chars_of,
    lowered_is, parse_i32, same_text, trim, white_space,
};

fn number(n: u64, base: u64, width: u64) -> String {
    let mut out = String::from("<");
    append_number(&mut out, n, base, width);
    out
}

fn decimal(n: i64) -> String {
    let mut out = String::new();
    append_decimal(&mut out, n);
    out
}

#[test]
fn numbers_are_padded_with_zeros() {
    assert_eq!(number(0, 10, 0), "<0");
    assert_eq!(number(7, 10, 2), "<07");
    assert_eq!(number(123, 10, 2), "<123");
    assert_eq!(number(0x85BB8A, 16, 8), "<0085BB8A");
    assert_eq!(number(u64::MAX, 16, 8), "<FFFFFFFFFFFFFFFF");
    assert_eq!(number(10, 2, 0), "<1010");
    assert_eq!(number(u64::MAX, 2, 0), format!("<{}", "1".repeat(64)));
    assert_eq!(number(5, 10, 40), format!("<{}5", "0".repeat(39)));
}

#[test]
fn decimals_agree_with_std() {
    for n in [0i64, 1, -1, 9, 10, -10, 99, 100, i32::MIN as i64, i32::MAX as i64, i64::MIN, i64::MAX] {
        assert_eq!(decimal(n), n.to_string());
    }
}

#[test]
fn optional_values_are_written_like_debug() {
    for value in [None, Some(0), Some(-7), Some(i32::MIN)] {
        let mut out = String::new();
        append_optional_int(&mut out, value);
        assert_eq!(out, format!("{:?}", value));
    }
    for value in [None, Some(true), Some(false)] {
        let mut out = String::new();
        append_optional_bool(&mut out, value);
        assert_eq!(out, format!("{:?}", value));
    }
    let mut out = String::new();
    append_bool(&mut out, true);
    append_bool(&mut out, false);
    assert_eq!(out, "truefalse");
}

#[test]
fn white_space_is_that_of_unicode() {
    for code in 0..=0x10FFFFu32 {
        if let Some(c) = char::from_u32(code) {
            assert_eq!(white_space(c), c.is_whitespace(), "U+{:04X}", code);
        }
    }
}

#[test]
fn trimming_agrees_with_std() {
    for s in ["", " ", "a", " a b\t", "\u{3000}\u{a0}x\u{2003}", "\u{200b}x", "\r\n one\r\n two \n"] {
        assert_eq!(trim(s), s.trim());
        assert_eq!(trim(trim(s)), trim(s));
    }
}

#[test]
fn texts_are_compared() {
    assert!(same_text("maimai", "maimai"));
    assert!(!same_text("maimai", "Maimai"));
    assert!(!same_text("a", "ab"));
    assert!(lowered_is("TrUe", "true"));
    assert!(!lowered_is("tru\u{212a}", "truk"));
    assert!(!lowered_is("TRUE ", "true"));
    assert!(lowered_is("@[", "@["));
    assert!(!lowered_is("@", "`"));
    assert_eq!(chars_of("a\u{e9}\u{1f3b5}"), vec!['a', '\u{e9}', '\u{1f3b5}']);
}

#[test]
fn integers_are_parsed_as_std_does() {
    for s in [
        "", "+", "-", "0", "-0", "+5", "007", "2147483647", "2147483648", "-2147483648",
        "-2147483649", "99999999999999999999", "00000000000000000000000000001", "1a", " 1", "1 ",
        "--1", "+-1", "\u{661}", "8227",
    ] {
        assert_eq!(parse_i32(s), s.parse::<i32>().ok(), "{:?}", s);
    }
}

#[test]
fn decimals_are_read_back() {
    for n in [0i32, 1, -1, 10, 2470, i32::MIN, i32::MAX] {
        assert_eq!(parse_i32(&decimal(n as i64)), Some(n));
    }
}
