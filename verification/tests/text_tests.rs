use eeg_pipeline::text::{contains, decimal_string, join};

#[test]
fn decimal_string_writes_numbers_without_padding() {
    assert_eq!(decimal_string(0), "0");
    assert_eq!(decimal_string(7), "7");
    assert_eq!(decimal_string(9), "9");
    assert_eq!(decimal_string(10), "10");
    assert_eq!(decimal_string(101), "101");
    assert_eq!(decimal_string(1234567890), "1234567890");
    assert_eq!(decimal_string(u64::MAX), "18446744073709551615");
}

#[test]
fn decimal_string_agrees_with_formatting() {
    for number in 0..2000u64 {
        assert_eq!(decimal_string(number), format!("{}", number));
    }
}

#[test]
fn join_puts_the_separator_between_neighbours() {
    let none: Vec<String> = Vec::new();
    assert_eq!(join(&none, ", "), "");
    assert_eq!(join(&vec!["a".to_string()], ", "), "a");
    assert_eq!(join(&vec!["a".to_string(), "b".to_string()], ", "), "a, b");
    assert_eq!(
        join(&vec!["a".to_string(), String::new(), "c".to_string()], "--"),
        "a----c"
    );
}

#[test]
fn contains_finds_a_run_of_characters() {
    assert!(contains("unicorn-1234", "unicorn"));
    assert!(contains("my unicorn", "unicorn"));
    assert!(contains("a unicorn b", "unicorn"));
    assert!(contains("unicorn", "unicorn"));
    assert!(contains("aab", "ab"));
    assert!(contains("abc", "c"));
    assert!(!contains("unicor", "unicorn"));
    assert!(!contains("unic0rn", "unicorn"));
    assert!(!contains("u-n-i-c-o-r-n", "unicorn"));
    assert!(!contains("abc", "ca"));
    assert!(!contains("", "a"));
}

#[test]
fn empty_text_occurs_everywhere() {
    assert!(contains("abc", ""));
    assert!(contains("", ""));
}

#[test]
fn contains_compares_characters_not_bytes() {
    assert!(contains("straße 12", "ße"));
    assert!(contains("日本語の名前", "語の"));
    assert!(!contains("日本語", "語日"));
    assert!(contains("a🔴b", "🔴"));
    assert!(!contains("é", "e"));
}

#[test]
fn contains_agrees_with_the_standard_search() {
    let texts = ["", "a", "ab", "aab", "abab", "ababc", "unicorn", "openbci-UNICORN", "ßß", "aßa"];
    for text in texts {
        for needle in texts {
            assert_eq!(contains(text, needle), text.contains(needle), "{text:?} {needle:?}");
        }
    }
}
