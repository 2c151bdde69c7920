use gnirehtet::text::{
    concatenated, count_before, find, is_whitespace, join, lines, parse_u16, push_decimal,
    push_hexadecimal, same_text, second_field, starts_with, strip_prefix, to_chars, to_text, trim,
    words,
};

fn split(parts: Vec<Vec<char>>) -> Vec<String> {
    parts.iter().map(|part| to_text(part)).collect()
}

#[test]
fn whitespace_agrees_with_unicode() {
    for code in 0..=0x10ffffu32 {
        if let Some(c) = char::from_u32(code) {
            assert_eq!(is_whitespace(c), c.is_whitespace(), "{:x}", code);
        }
    }
}

#[test]
fn text_survives_the_way_through_characters() {
    for text in ["", "abc", "h\u{e9}llo \u{1f600}"] {
        assert_eq!(to_text(&to_chars(text)), text);
    }
}

#[test]
fn trimming_agrees_with_std() {
    for text in ["", "   ", "a", "  a b\t\n", "\u{a0}x\u{3000}"] {
        assert_eq!(to_text(trim(&to_chars(text))), text.trim());
    }
}

#[test]
fn lines_agree_with_std() {
    for text in [
        "", "\n", "a", "a\n", "a\nb", "a\r\nb\r\n", "a\r", "\r\n\r\n", "a\n\nb", "a\rb\n", "a\r\r\n",
    ] {
        let expected: Vec<&str> = text.lines().collect();
        assert_eq!(split(lines(&to_chars(text))), expected, "{:?}", text);
    }
}

#[test]
fn words_agree_with_std() {
    for text in ["", " ", "a", " a  b\tc\n", "a\u{a0}b", "a b "] {
        let expected: Vec<&str> = text.split_whitespace().collect();
        assert_eq!(split(words(&to_chars(text))), expected, "{:?}", text);
    }
}

#[test]
fn prefixes_are_stripped() {
    let chars = to_chars("nameserver 1.1.1.1");
    let rest = strip_prefix(&chars, "nameserver ").map(to_text);
    assert_eq!(rest, Some("1.1.1.1".to_string()));
    assert_eq!(strip_prefix(&chars, "server"), None);
    assert!(starts_with(&chars, &to_chars("name")));
    assert!(starts_with(&chars, &to_chars("")));
    assert!(!starts_with(&to_chars("na"), &to_chars("name")));
}

#[test]
fn the_first_match_is_found() {
    let chars = to_chars("abcabc");
    assert_eq!(find(&chars, "bc"), Some(1));
    assert_eq!(find(&chars, "cab"), Some(2));
    assert_eq!(find(&chars, "x"), None);
    assert_eq!(find(&chars, ""), Some(0));
    assert_eq!(find(&to_chars(""), ""), Some(0));
    assert_eq!(find(&to_chars(""), "a"), None);
    assert_eq!(count_before(&chars, 'c'), 2);
    assert_eq!(count_before(&chars, 'x'), 6);
}

#[test]
fn the_second_field_is_taken() {
    let field = |text: &str| second_field(&to_chars(text), ']').map(to_text);
    assert_eq!(field("0] : 1.1.1.1"), Some(" : 1.1.1.1".to_string()));
    assert_eq!(field("0]"), Some("".to_string()));
    assert_eq!(field("0]a]b"), Some("a".to_string()));
    assert_eq!(field("0"), None);
}

#[test]
fn texts_are_put_together() {
    assert_eq!(concatenated("a", "bc"), "abc");
    assert_eq!(join(&[], ","), "");
    assert_eq!(join(&["a".to_string()], ","), "a");
    assert_eq!(
        join(&["a".to_string(), "".to_string(), "c".to_string()], ", "),
        "a, , c"
    );
    assert!(same_text(&to_chars("abc"), "abc"));
    assert!(!same_text(&to_chars("abc"), "abd"));
    assert!(!same_text(&to_chars("ab"), "abc"));
}

#[test]
fn numbers_are_printed() {
    for n in [0, 9, 10, 65535, 4294967295, u64::MAX] {
        let mut decimal = "n=".to_string();
        push_decimal(&mut decimal, n);
        assert_eq!(decimal, format!("n={}", n));
        let mut hexadecimal = "0x".to_string();
        push_hexadecimal(&mut hexadecimal, n);
        assert_eq!(hexadecimal, format!("0x{:x}", n));
    }
}

#[test]
fn numbers_are_read_back() {
    for n in [0u16, 7, 1280, 65535] {
        let mut decimal = String::new();
        push_decimal(&mut decimal, n as u64);
        assert_eq!(parse_u16(&to_chars(&decimal)), Some(n));
    }
}

#[test]
fn number_parsing_agrees_with_std() {
    for text in [
        "", "+", "-", "+5", "-5", "-0", "0005", "65535", "65536", "99999999999999999999", "12a",
        "1 2", " 12", "++1",
    ] {
        assert_eq!(parse_u16(&to_chars(text)), text.parse::<u16>().ok(), "{:?}", text);
    }
}
