use envsetup::text::{contains_str, split_lines, starts_with_str, trim_range};

#[test]
fn trim_range_strips_both_ends() {
    assert_eq!(trim_range("  a b\t"), (2, 5));
    assert_eq!(trim_range("abc"), (0, 3));
}

#[test]
fn trim_range_of_blank_input_is_empty() {
    let (a, b) = trim_range(" \t\r\n");
    assert_eq!(a, b);
    assert_eq!(trim_range(""), (0, 0));
}

#[test]
fn contains_finds_substrings() {
    assert!(contains_str("Command Line Tools for Xcode", "Line Tools"));
    assert!(contains_str("abc", ""));
    assert!(contains_str("abc", "abc"));
    assert!(!contains_str("abc", "abcd"));
    assert!(!contains_str("Command Line Tools", "beta"));
}

#[test]
fn starts_with_checks_the_prefix() {
    assert!(starts_with_str("* Label: X", "* Label: "));
    assert!(!starts_with_str("Label: X", "* Label: "));
    assert!(starts_with_str("", ""));
    assert!(!starts_with_str("", "a"));
}

#[test]
fn split_lines_matches_line_semantics() {
    assert_eq!(split_lines("a\nb"), vec!["a", "b"]);
    assert_eq!(split_lines("a\nb\n"), vec!["a", "b"]);
    assert_eq!(split_lines("a\n\nb"), vec!["a", "", "b"]);
    assert!(split_lines("").is_empty());
    assert_eq!(split_lines("\n"), vec![""]);
}
