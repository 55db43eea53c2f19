use arfni_gui::text::{
    chars_of, contains_str, decimal_string, ends_with, find, find_chars, join, matches_at, owned,
    push_decimal, push_decimal_digits, same, text_le, trim,
};

#[test]
fn leftmost_occurrence_by_character_index() {
    assert_eq!(find("hello world", "o"), Some(4));
    assert_eq!(find("hello world", "world"), Some(6));
    assert_eq!(find("hello", "hello"), Some(0));
    assert_eq!(find("hello", "hello!"), None);
    assert_eq!(find("hello", ""), Some(0));
    assert_eq!(find("", ""), Some(0));
    assert_eq!(find("", "a"), None);
    assert_eq!(find("aaab", "aab"), Some(1));
    assert_eq!(find("한글 abc", "abc"), Some(3));
    assert_eq!(find("abcabc", "bc"), Some(1));
}

#[test]
fn occurrence_in_character_lists() {
    let hay = chars_of("abcabc");
    let needle = chars_of("ca");
    assert_eq!(hay, vec!['a', 'b', 'c', 'a', 'b', 'c']);
    assert!(matches_at(&hay, &needle, 2));
    assert!(!matches_at(&hay, &needle, 1));
    assert!(matches_at(&hay, &Vec::new(), 6));
    assert!(!matches_at(&hay, &Vec::new(), 7));
    assert!(!matches_at(&hay, &needle, 5));
    assert!(!matches_at(&needle, &hay, 0));
    assert_eq!(find_chars(&hay, &needle), Some(2));
    assert_eq!(find_chars(&needle, &hay), None);
}

#[test]
fn containment_and_suffixes() {
    assert!(contains_str("apiVersion: v1", "apiVersion:"));
    assert!(!contains_str("apiversion: v1", "apiVersion:"));
    assert!(contains_str("x", ""));
    assert!(ends_with("plugin.exe", ".exe"));
    assert!(ends_with("plugin.exe", ""));
    assert!(ends_with(".exe", ".exe"));
    assert!(!ends_with("exe", ".exe"));
    assert!(!ends_with("plugin.exe ", ".exe"));
}

#[test]
fn equality_and_joining() {
    assert!(same("", ""));
    assert!(same("abc", "abc"));
    assert!(!same("abc", "abd"));
    assert!(!same("abc", "ab"));
    assert!(!same("ab", "abc"));
    assert_eq!(join("ab", "cd"), "abcd");
    assert_eq!(join("", ""), "");
    assert_eq!(owned("한글"), "한글");
}

#[test]
fn decimal_rendering() {
    assert_eq!(decimal_string(0), "0");
    assert_eq!(decimal_string(7), "7");
    assert_eq!(decimal_string(10), "10");
    assert_eq!(decimal_string(-1), "-1");
    assert_eq!(decimal_string(1234567890), "1234567890");
    assert_eq!(decimal_string(i64::MAX), "9223372036854775807");
    assert_eq!(decimal_string(i64::MIN), "-9223372036854775808");
    let mut out = String::from("code ");
    push_decimal(&mut out, -42);
    assert_eq!(out, "code -42");
    push_decimal_digits(&mut out, u64::MAX);
    assert_eq!(out, "code -4218446744073709551615");
    for n in [-1000i64, -999, -10, -9, 9, 99, 100, 101, 65535] {
        assert_eq!(decimal_string(n), n.to_string());
    }
}

#[test]
fn order_of_strings_is_the_standard_one() {
    let samples = ["", "a", "A", "ab", "abc", "b", "ba", "é", "z", "가", "a\u{10FFFF}", "\u{0}"];
    for x in samples {
        for y in samples {
            assert_eq!(text_le(x, y), x <= y, "{:?} {:?}", x, y);
        }
    }
}

#[test]
fn trimming_removes_white_space_at_both_ends_only() {
    assert_eq!(trim("  a b  "), "a b");
    assert_eq!(trim("a"), "a");
    assert_eq!(trim(""), "");
    assert_eq!(trim(" \t\r\n"), "");
    assert_eq!(trim("\n x"), "x");
    assert_eq!(trim("x \n"), "x");
    assert_eq!(trim("\u{3000}한 글\u{a0}"), "한 글");
    for s in ["", " ", "a ", " a", " a b ", "\u{2003}x\u{85}", "no-space", "\u{200b}x"] {
        assert_eq!(trim(s), s.trim());
    }
}
