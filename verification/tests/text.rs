use dsh_installer::text::{
    contains, ends_with, join_texts, split_text, split_words, starts_with, trimmed,
};

#[test]
fn trimming_and_affixes() {
    assert_eq!(trimmed("  v24.19.0\r\n"), "v24.19.0");
    assert_eq!(trimmed(" \t "), "");
    assert!(starts_with("importing_started", "importing"));
    assert!(!starts_with("imp", "importing"));
    assert!(ends_with("harness-1.log", ".log"));
    assert!(contains("requires a newer runtime", "newer"));
    assert!(!contains("short", "longer text"));
}

#[test]
fn splitting_and_joining() {
    assert_eq!(split_text("a||b||", "||"), vec!["a", "b", ""]);
    assert_eq!(split_text("|||", "||"), vec!["", "|"]);
    assert_eq!(split_words("  >=22.0.0   <25 "), vec![">=22.0.0", "<25"]);
    let words = split_words(">=1 <2");
    assert_eq!(join_texts(&words, ", "), ">=1, <2");
}
