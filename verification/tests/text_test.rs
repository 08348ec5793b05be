use taped::text::{
    contains, i32_to_decimal, i32_to_padded2, join_present, replace_all, starts_with, str_eq,
    trim, u64_to_decimal, words_between,
};

#[test]
fn replace_all_is_left_to_right_without_overlap() {
    assert_eq!(replace_all("aaa", "aa", "b"), "ba");
    assert_eq!(replace_all("abcabc", "bc", "X"), "aXaX");
    assert_eq!(replace_all("abc", "abcd", "X"), "abc");
    assert_eq!(replace_all("", "a", "X"), "");
    assert_eq!(replace_all("äöü", "ö", "o"), "äoü");
    assert_eq!(replace_all("aaa", "a", "aa"), "aaaaaa");
}

#[test]
fn prefix_and_infix() {
    assert!(starts_with("spotify:ad:1", "spotify:ad:"));
    assert!(!starts_with("spotify:a", "spotify:ad:"));
    assert!(starts_with("x", ""));
    assert!(contains("/com/spotify/ad/1", "/ad/"));
    assert!(!contains("/com/spotify/track/1", "/ad/"));
    assert!(contains("", ""));
    assert!(!contains("ad", "/ad/"));
    assert!(str_eq("Playing", "Playing"));
    assert!(!str_eq("Playing", "Paused"));
    assert!(!str_eq("Play", "Playing"));
}

#[test]
fn decimal_forms() {
    assert_eq!(u64_to_decimal(0), "0");
    assert_eq!(u64_to_decimal(u64::MAX), u64::MAX.to_string());
    for n in [0, 7, -7, 10, 99, -100, i32::MIN, i32::MAX] {
        assert_eq!(i32_to_decimal(n), n.to_string());
        assert_eq!(i32_to_padded2(n), format!("{:02}", n));
    }
}

#[test]
fn trim_and_words() {
    assert_eq!(trim("  default-sink \r\n"), "default-sink");
    assert_eq!(trim("\u{3000}x y\u{a0}"), "x y");
    assert_eq!(trim(" \t\n"), "");
    let line = "1\tdefault-sink.monitor  module-null-sink.c s16le 2ch 44100Hz RUNNING";
    let n = line.chars().count();
    let expected: Vec<String> = line.split_whitespace().map(|s| s.to_string()).collect();
    assert_eq!(words_between(line, 0, n), expected);
    assert_eq!(words_between("ab cd", 1, 4), vec!["b".to_string(), "c".to_string()]);
    assert!(words_between("   ", 0, 3).is_empty());
}

#[test]
fn join_present_skips_absent_items() {
    assert_eq!(join_present(&vec![], ", "), "");
    assert_eq!(join_present(&vec![None, None], ", "), "");
    assert_eq!(
        join_present(&vec![Some("a".to_string()), None, Some("b".to_string())], ", "),
        "a, b"
    );
    assert_eq!(join_present(&vec![Some(String::new()), Some("x".to_string())], "+"), "+x");
}
