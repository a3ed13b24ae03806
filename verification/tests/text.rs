use web_server::text::{ends_with, eq_ignore_ascii_case, fold_char, format_usize, starts_with};

#[test]
fn formats_small_numbers() {
    assert_eq!(format_usize(0), "0");
    assert_eq!(format_usize(7), "7");
    assert_eq!(format_usize(10), "10");
    assert_eq!(format_usize(105), "105");
    assert_eq!(format_usize(99000), "99000");
}

#[test]
fn formats_large_numbers() {
    assert_eq!(format_usize(usize::MAX), usize::MAX.to_string());
}

#[test]
fn prefix_test() {
    assert!(starts_with("GET / HTTP/1.1", "GET"));
    assert!(starts_with("GET", "GET"));
    assert!(starts_with("anything", ""));
    assert!(!starts_with("GE", "GET"));
    assert!(!starts_with("get / HTTP/1.1", "GET"));
}

#[test]
fn suffix_test() {
    assert!(ends_with("GET / HTTP/1.1", "HTTP/1.1"));
    assert!(ends_with("HTTP/1.1", "HTTP/1.1"));
    assert!(ends_with("anything", ""));
    assert!(!ends_with("1.1", "HTTP/1.1"));
    assert!(!ends_with("GET / HTTP/1.0", "HTTP/1.1"));
}

#[test]
fn case_folding_is_ascii_only() {
    assert_eq!(fold_char('A'), 'a');
    assert_eq!(fold_char('Z'), 'z');
    assert_eq!(fold_char('a'), 'a');
    assert_eq!(fold_char('/'), '/');
    assert_eq!(fold_char('5'), '5');
    // Non-ASCII letters are left alone.
    assert_eq!(fold_char('\u{c9}'), '\u{c9}');
}

#[test]
fn case_insensitive_comparison() {
    assert!(eq_ignore_ascii_case("GET / HTTP/1.1", "get / http/1.1"));
    assert!(eq_ignore_ascii_case("", ""));
    assert!(eq_ignore_ascii_case("AbC", "aBc"));
    assert!(!eq_ignore_ascii_case("abc", "abd"));
    assert!(!eq_ignore_ascii_case("abc", "abcd"));
    // ASCII folding only: a pre-folded non-ASCII pair stays distinct.
    assert!(!eq_ignore_ascii_case("\u{c9}", "\u{e9}"));
}
