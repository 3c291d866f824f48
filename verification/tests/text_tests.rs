use tata_switch::text::{join_text, contains_str, is_blank_str, replace_str, starts_with, text_eq, trim_char};

#[test]
fn prefix_and_containment() {
    assert!(starts_with("pre_123", "pre_"));
    assert!(!starts_with("pr", "pre_"));
    assert!(starts_with("x", ""));
    assert!(contains_str("abc_def", "_"));
    assert!(contains_str("aaab", "aab"));
    assert!(!contains_str("abc", "abcd"));
    assert!(contains_str("", ""));
}

#[test]
fn replace_all_occurrences_left_to_right() {
    assert_eq!(replace_str("{} and {}", "{}", "x"), "x and x");
    assert_eq!(replace_str("aaaa", "aa", "b"), "bb");
    assert_eq!(replace_str("no placeholder", "{}", "x"), "no placeholder");
    assert_eq!(replace_str("{}", "{}", "{}"), "{}");
    assert_eq!(replace_str("한{}글", "{}", "국"), "한국글");
}

#[test]
fn quotes_are_trimmed_from_both_ends() {
    assert_eq!(trim_char("\"C:\\Games\"", '"'), "C:\\Games");
    assert_eq!(trim_char("\"\"\"", '"'), "");
    assert_eq!(trim_char("a\"b", '"'), "a\"b");
}

#[test]
fn blank_text_and_equality() {
    assert!(is_blank_str("  \n"));
    assert!(!is_blank_str(" a "));
    assert!(text_eq("ab", "ab"));
    assert!(!text_eq("ab", "abc"));
    assert_eq!(join_text("ab", "cd"), "abcd");
}
