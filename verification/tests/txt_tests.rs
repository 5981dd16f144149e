use chat_export::txt::{add_line, replace_all, spaces, str_starts_with, strip_last_newline};

#[test]
fn add_line_skips_empty_parts_and_indents_the_rest() {
    let mut out = String::new();
    add_line(&mut out, "", "    ");
    assert_eq!(out, "");
    add_line(&mut out, "first", "    ");
    add_line(&mut out, "second", "");
    assert_eq!(out, "    first\nsecond\n");
}

#[test]
fn replace_all_is_leftmost_and_non_overlapping() {
    assert_eq!(replace_all("aaa", "aa", "b"), "ba");
    assert_eq!(replace_all("a line\nanother\n", "\n", " | "), "a line | another | ");
    assert_eq!(replace_all("nothing here", "xyz", "!"), "nothing here");
    assert_eq!(replace_all("", "xyz", "!"), "");
}

#[test]
fn prefix_test_matches_whole_prefixes_only() {
    assert!(str_starts_with("hello world", "hello"));
    assert!(str_starts_with("hello", "hello"));
    assert!(!str_starts_with("hell", "hello"));
    assert!(!str_starts_with("ahello", "hello"));
    assert!(str_starts_with("anything", ""));
}

#[test]
fn strip_last_newline_drops_exactly_one() {
    assert_eq!(strip_last_newline("a\nb\n"), "a\nb");
    assert_eq!(strip_last_newline("a\nb\n\n"), "a\nb\n");
    assert_eq!(strip_last_newline("ab"), "ab");
    assert_eq!(strip_last_newline(""), "");
}

#[test]
fn spaces_builds_the_indent() {
    assert_eq!(spaces(0), "");
    assert_eq!(spaces(4), "    ");
}
