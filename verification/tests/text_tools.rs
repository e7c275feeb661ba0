//! Unit tests of the verified string tools and the engine-error adapter.

use render::errors::parse_missing_dependencies;
use render::text::{find_pat_from, is_whitespace, split_str, trim_str};

#[test]
fn test_split_on_dots() {
    assert_eq!(split_str("a.b.c", "."), vec!["a", "b", "c"]);
    assert_eq!(split_str("a..b", "."), vec!["a", "", "b"]);
    assert_eq!(split_str("", "."), vec![""]);
    assert_eq!(split_str(".", "."), vec!["", ""]);
    assert_eq!(split_str("plain", "."), vec!["plain"]);
}

#[test]
fn test_split_on_longer_pattern() {
    assert_eq!(
        split_str("x not found y not found", "not found"),
        vec!["x ", " y ", ""]
    );
    assert_eq!(split_str("nothing here", "not found"), vec!["nothing here"]);
}

#[test]
fn test_find_pat_from_positions() {
    assert_eq!(find_pat_from("a.b.c", ".", 0), Some(1));
    assert_eq!(find_pat_from("a.b.c", ".", 2), Some(3));
    assert_eq!(find_pat_from("a.b.c", ".", 4), None);
    assert_eq!(find_pat_from("abc", "z", 0), None);
}

#[test]
fn test_trim_removes_whitespace() {
    assert_eq!(trim_str("  hello  "), "hello");
    assert_eq!(trim_str("\t\n mixed inner \r"), "mixed inner");
    assert_eq!(trim_str("   "), "");
    assert_eq!(trim_str(""), "");
    assert_eq!(trim_str("\u{3000}wide\u{2028}"), "wide");
    assert_eq!(trim_str("tight"), "tight");
}

#[test]
fn test_is_whitespace_matches_unicode_property() {
    assert!(is_whitespace(' '));
    assert!(is_whitespace('\t'));
    assert!(is_whitespace('\u{00A0}'));
    assert!(is_whitespace('\u{2003}'));
    assert!(!is_whitespace('x'));
    assert!(!is_whitespace('\u{200B}'));
    for c in "abc.{}!".chars() {
        assert_eq!(is_whitespace(c), c.is_whitespace());
    }
}

#[test]
fn test_parse_missing_dependencies_with_marker() {
    assert_eq!(
        parse_missing_dependencies("template foo.html not found"),
        Some(vec!["template foo.html".to_string()])
    );
    assert_eq!(
        parse_missing_dependencies("a not found b not found"),
        Some(vec!["a".to_string(), "b".to_string()])
    );
    assert_eq!(parse_missing_dependencies("not found"), Some(vec![]));
}

#[test]
fn test_parse_missing_dependencies_without_marker() {
    assert_eq!(parse_missing_dependencies("syntax error: unexpected end"), None);
    assert_eq!(parse_missing_dependencies(""), None);
}
