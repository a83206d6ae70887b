use voice_sessions::text::{chars_of, holds_at, parse_i64, same_text};

fn chars(s: &str) -> Vec<char> {
    s.chars().collect()
}

#[test]
fn characters_of_text() {
    assert_eq!(chars_of("héllo"), vec!['h', 'é', 'l', 'l', 'o']);
    assert!(chars_of("").is_empty());
}

#[test]
fn prefix_at_a_position() {
    let t = chars("abcabc");
    assert!(holds_at(&t, 0, &chars("abc")));
    assert!(holds_at(&t, 3, &chars("abc")));
    assert!(!holds_at(&t, 1, &chars("abc")));
    assert!(!holds_at(&t, 4, &chars("abc")));
    assert!(holds_at(&t, 6, &chars("")));
    assert!(!holds_at(&t, 7, &chars("")));
    assert!(!holds_at(&chars("ab"), 0, &chars("abc")));
}

#[test]
fn equal_texts() {
    assert!(same_text(&chars("abc"), &chars("abc")));
    assert!(!same_text(&chars("abc"), &chars("abd")));
    assert!(!same_text(&chars("abc"), &chars("ab")));
    assert!(same_text(&chars(""), &chars("")));
}

#[test]
fn signed_decimals() {
    assert_eq!(parse_i64(&chars("0")), Some(0));
    assert_eq!(parse_i64(&chars("1641048381")), Some(1641048381));
    assert_eq!(parse_i64(&chars("+42")), Some(42));
    assert_eq!(parse_i64(&chars("-42")), Some(-42));
    assert_eq!(parse_i64(&chars("-0")), Some(0));
    assert_eq!(parse_i64(&chars("007")), Some(7));
    assert_eq!(parse_i64(&chars("9223372036854775807")), Some(i64::MAX));
    assert_eq!(parse_i64(&chars("-9223372036854775808")), Some(i64::MIN));
    assert_eq!(parse_i64(&chars("00000000000000000000000000009223372036854775807")), Some(i64::MAX));
}

#[test]
fn texts_that_are_no_decimal() {
    for bad in [
        "", "+", "-", "--1", "+-1", "1-", "12a", "a12", " 1", "1 ", "1.0", "٣",
        "9223372036854775808", "-9223372036854775809", "99999999999999999999999999999",
    ] {
        assert_eq!(parse_i64(&chars(bad)), None, "{:?}", bad);
    }
}

#[test]
fn decimals_agree_with_the_standard_parser() {
    for text in ["5", "-17", "+3", "x", "", "1_000", "123456789012345678901234567890", "-", "0x10"] {
        assert_eq!(parse_i64(&chars(text)), text.parse::<i64>().ok(), "{:?}", text);
    }
}
