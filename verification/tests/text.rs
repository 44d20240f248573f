use charted::text::{
    contains_char, i64_to_decimal, join, pad_right_str, remove_first_n, sort_strings, split_once_char,
    str_contains, str_eq, str_lt, trim, u64_to_decimal, char_is_white_space,
};

#[test]
fn decimal_rendering() {
    assert_eq!(u64_to_decimal(0), "0");
    assert_eq!(u64_to_decimal(1234567890), "1234567890");
    assert_eq!(u64_to_decimal(u64::MAX), u64::MAX.to_string());
    assert_eq!(i64_to_decimal(-42), "-42");
    assert_eq!(i64_to_decimal(i64::MIN), i64::MIN.to_string());
    assert_eq!(i64_to_decimal(7), "7");
}

#[test]
fn trimming_matches_std() {
    for s in ["  a b  ", "\t\nx\u{3000}", "", "   ", "no-space", "\u{85}y\u{a0}"] {
        assert_eq!(trim(s), s.trim());
    }
}

#[test]
fn white_space_characters() {
    for c in [' ', '\t', '\n', '\u{2028}', '\u{3000}', 'a', '_', '\u{200b}'] {
        assert_eq!(char_is_white_space(c), c.is_whitespace());
    }
}

#[test]
fn replacen_matches_std() {
    for (s, c, n) in [("'v3.14.0'", '\'', 2usize), ("vvv", 'v', 1), ("abc", 'z', 3), ("a'b'c'd", '\'', 2)] {
        assert_eq!(remove_first_n(s, c, n), s.replacen(c, "", n));
    }
}

#[test]
fn padding_and_joining() {
    assert_eq!(pad_right_str("7", 3), "7  ");
    assert_eq!(pad_right_str("1234", 3), "1234");
    let parts = vec!["a".to_string(), "b".to_string(), "c".to_string()];
    assert_eq!(join(&parts, " "), "a b c");
    assert_eq!(join(&Vec::new(), ","), "");
}

#[test]
fn comparisons() {
    assert!(str_eq("abc", "abc"));
    assert!(!str_eq("abc", "abd"));
    assert!(str_lt("abc", "abd"));
    assert!(str_lt("ab", "abc"));
    assert!(!str_lt("b", "abc"));
    assert!(str_contains("hello world", "o w"));
    assert!(!str_contains("hello", "world"));
    assert!(contains_char("a/b", '/'));
}

#[test]
fn split_once_like_std() {
    assert_eq!(split_once_char("k:v:w", ':'), Some(("k".to_string(), "v:w".to_string())));
    assert_eq!(split_once_char("kv", ':'), None);
}

#[test]
fn sorting_matches_std() {
    let v = vec!["b".to_string(), "a".to_string(), "c".to_string(), "a".to_string(), "B".to_string()];
    let mut expected = v.clone();
    expected.sort();
    assert_eq!(sort_strings(v), expected);
}
