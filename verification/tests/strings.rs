use mcman::strs::{
    contains_str, ends_with, find_char, fmt_i64, fmt_u64, has_whitespace, join, parse_u64,
    prefix_before, replace, rfind_char, split_at_whitespace, split_char, split_words, starts_with,
    suffix_after, trim,
};
use mcman::strmap::StrMap;

#[test]
fn split_words_drops_empty_pieces() {
    assert_eq!(split_words("  -Xmx2G   -Dfoo=bar\t-jar "), vec!["-Xmx2G", "-Dfoo=bar", "-jar"]);
    assert!(split_words("   ").is_empty());
}

#[test]
fn split_at_whitespace_keeps_empty_pieces() {
    assert_eq!(split_at_whitespace("a  b\n"), vec!["a", "", "b", ""]);
    assert_eq!(split_at_whitespace(""), vec![""]);
}

#[test]
fn join_puts_separator_between() {
    let v = vec!["a".to_owned(), "b".to_owned(), "c".to_owned()];
    assert_eq!(join(&v, ", "), "a, b, c");
    assert_eq!(join(&Vec::new(), ","), "");
}

#[test]
fn trim_strips_unicode_white_space() {
    assert_eq!(trim("\u{3000} hi there \n"), "hi there");
    assert_eq!(trim("   "), "");
}

#[test]
fn replace_matches_std() {
    assert_eq!(replace("a.b.c", ".", "/"), "a/b/c");
    assert_eq!(replace("aaa", "aa", "b"), "ba");
    assert_eq!(replace("ab", "", "-"), "ab".replace("", "-"));
    assert_eq!(replace("abc", "x", "y"), "abc");
}

#[test]
fn numbers_print_like_display() {
    assert_eq!(fmt_u64(0), "0");
    assert_eq!(fmt_u64(18446744073709551615), "18446744073709551615");
    assert_eq!(fmt_i64(-42), "-42");
    assert_eq!(fmt_i64(i64::MIN), i64::MIN.to_string());
}

#[test]
fn parse_u64_matches_std() {
    for s in ["0", "+17", "007", "18446744073709551615", "18446744073709551616", "", "+", "-1", "1a", " 1"] {
        assert_eq!(parse_u64(s), s.parse::<u64>().ok(), "{s}");
    }
}

#[test]
fn searching_text() {
    assert_eq!(find_char("a.b.c", '.'), Some(1));
    assert_eq!(rfind_char("a.b.c", '.'), Some(3));
    assert_eq!(find_char("abc", '.'), None);
    assert!(starts_with("/job/x", "/job"));
    assert!(ends_with("file.jar", ".jar"));
    assert!(contains_str("12:00 [Server]: Done (3s)", "]: Done"));
    assert!(!contains_str("abc", "abd"));
    assert!(has_whitespace("a b"));
    assert!(!has_whitespace("ab"));
    assert_eq!(prefix_before("a/b?x=1", '?'), "a/b");
    assert_eq!(suffix_after("a/b/c.jar", '/'), "c.jar");
    assert_eq!(split_char("a/b//c", '/'), vec!["a", "b", "", "c"]);
}

#[test]
fn strmap_read_after_write() {
    let mut m: StrMap<String> = StrMap::new();
    m.insert("a".to_owned(), "1".to_owned());
    m.insert("b".to_owned(), "2".to_owned());
    m.insert("a".to_owned(), "3".to_owned());
    assert_eq!(m.len(), 2);
    assert_eq!(m.get("a").map(|s| s.as_str()), Some("3"));
    assert_eq!(m.get("b").map(|s| s.as_str()), Some("2"));
    assert_eq!(m.get("c"), None);
    assert_eq!(m.index_of("b"), Some(1));
    let (k, v) = m.entry_at(0);
    assert_eq!((k.as_str(), v.as_str()), ("a", "3"));
    let old = m.swap_value_at(1, "9".to_owned());
    assert_eq!(old, "2");
    assert_eq!(m.get("b").map(|s| s.as_str()), Some("9"));
    assert!(m.contains_key("a"));
    assert!(!m.is_empty());
}
