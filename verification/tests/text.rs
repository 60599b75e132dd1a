use ablavema::text::{
    compare_text, contains, count_of, decimal, ends_with, nth_word, remove_char, same_text, slice,
    split_terminator, starts_with,
};

#[test]
fn contains_finds_infixes() {
    assert!(contains("blender-2.93.0-linux-x64.tar.xz", ".tar."));
    assert!(contains("abc", ""));
    assert!(!contains("blender.zip", ".tar."));
    assert!(!contains("", "a"));
}

#[test]
fn prefixes_and_suffixes() {
    assert!(starts_with("Blender2.93/", "Blender"));
    assert!(!starts_with("Blend", "Blender"));
    assert!(ends_with("file.sha256", ".sha256"));
    assert!(!ends_with("file.sha256.txt", ".sha256"));
}

#[test]
fn compare_text_is_lexicographic() {
    assert_eq!(compare_text("abc", "abd"), -1);
    assert_eq!(compare_text("abd", "abc"), 1);
    assert_eq!(compare_text("ab", "abc"), -1);
    assert_eq!(compare_text("abc", "abc"), 0);
    assert!(same_text("x", "x"));
    assert!(!same_text("x", "y"));
}

#[test]
fn slice_takes_characters() {
    assert_eq!(slice("héllo", 1, 3), "él");
}

#[test]
fn nth_word_splits_on_white_space() {
    assert_eq!(nth_word("Blender 3.0.0  alpha", 1), Some("3.0.0".to_string()));
    assert_eq!(nth_word("  Blender\t2.93\n", 0), Some("Blender".to_string()));
    assert_eq!(nth_word("Blender 2.93", 2), None);
    assert_eq!(nth_word("", 0), None);
    assert_eq!(nth_word("a\u{3000}b", 1), Some("b".to_string()));
}

#[test]
fn split_terminator_drops_an_empty_last_part() {
    assert_eq!(
        split_terminator("May 05, 10:00:00 - master - abc123", " - "),
        vec!["May 05, 10:00:00", "master", "abc123"]
    );
    assert_eq!(split_terminator("a - b - ", " - "), vec!["a", "b"]);
    assert_eq!(split_terminator("", " - "), Vec::<String>::new());
    assert_eq!(split_terminator("a--b", "-"), vec!["a", "", "b"]);
    assert_eq!(split_terminator("no separator", " - "), vec!["no separator"]);
}

#[test]
fn remove_and_count_characters() {
    assert_eq!(remove_char("2.79/latest/", '/'), "2.79latest");
    assert_eq!(count_of("01-Jan-2020 10:00", '-'), 2);
    assert_eq!(count_of("", '-'), 0);
}

#[test]
fn decimal_numerals() {
    assert_eq!(decimal(0), "0");
    assert_eq!(decimal(7), "7");
    assert_eq!(decimal(1440), "1440");
    assert_eq!(decimal(usize::MAX), usize::MAX.to_string());
}
