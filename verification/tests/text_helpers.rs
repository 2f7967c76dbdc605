use bili_sync::text::{
    chars_of, is_blank, is_whitespace, join, owned, rsplit_once, same_text, starts_with,
    string_of, trim_end_matches,
};

#[test]
fn chars_of_lists_characters() {
    assert_eq!(chars_of("a中b"), vec!['a', '中', 'b']);
    assert_eq!(chars_of(""), Vec::<char>::new());
}

#[test]
fn string_of_takes_a_range() {
    let v = vec!['a', 'b', 'c', 'd'];
    assert_eq!(string_of(&v, 1, 3), "bc");
    assert_eq!(string_of(&v, 2, 2), "");
    assert_eq!(owned("xyz"), "xyz");
}

#[test]
fn trim_end_matches_drops_trailing_slashes_only() {
    assert_eq!(trim_end_matches("/dav///", '/'), "/dav");
    assert_eq!(trim_end_matches("///", '/'), "");
    assert_eq!(trim_end_matches("/a/b", '/'), "/a/b");
    assert_eq!(trim_end_matches("", '/'), "");
}

#[test]
fn starts_with_checks_prefix() {
    assert!(starts_with("video - P1.mp4", "video"));
    assert!(starts_with("abc", "abc"));
    assert!(starts_with("abc", ""));
    assert!(!starts_with("ab", "abc"));
    assert!(!starts_with("abd", "abc"));
}

#[test]
fn rsplit_once_splits_at_last_slash() {
    assert_eq!(rsplit_once("/a/b/c.mp4", '/'), Some(("/a/b".to_string(), "c.mp4".to_string())));
    assert_eq!(rsplit_once("/c.mp4", '/'), Some(("".to_string(), "c.mp4".to_string())));
    assert_eq!(rsplit_once("c.mp4", '/'), None);
    assert_eq!(rsplit_once("a/", '/'), Some(("a".to_string(), "".to_string())));
}

#[test]
fn whitespace_matches_std() {
    for c in ['\t', '\n', ' ', '\u{85}', '\u{a0}', '\u{2003}', '\u{3000}', 'a', '0', '\u{200b}', '_'] {
        assert_eq!(is_whitespace(c), c.is_whitespace(), "{:?}", c);
    }
}

#[test]
fn blank_text_is_all_whitespace() {
    assert!(is_blank(""));
    assert!(is_blank(" \n\t "));
    assert!(!is_blank(" {} "));
}

#[test]
fn same_text_compares_characters() {
    assert!(same_text("abc", "abc"));
    assert!(!same_text("abc", "abd"));
    assert!(!same_text("abc", "ab"));
}

#[test]
fn join_puts_separator_between() {
    let v = vec!["a".to_string(), "b".to_string(), "c".to_string()];
    assert_eq!(join(&v, "\n"), "a\nb\nc");
    assert_eq!(join(&vec!["x".to_string()], "\n"), "x");
    assert_eq!(join(&Vec::new(), "\n"), "");
}
