//! The string extensions: subsequence tests, the unique name generator,
//! width fitting, size formatting, and the clipboard escape.
use tabiew::type_ext::{FitToWidth, HasSubsequence, SnakeCaseNameGen, ToAscii};
use tabiew::type_ext::{human_readable_size, osc52_sequence};

#[test]
fn test_has_subsequence() {
    assert!("Chakra".has_subsequence("Ca"));
    assert!("abcdef".has_subsequence("abc"));
    assert!("abcdef".has_subsequence("ace"));
    assert!(!"abcdef".has_subsequence("aec"));
    assert!("".has_subsequence(""));
    assert!("abcdef".has_subsequence(""));
    assert!(!"".has_subsequence("abc"));
    assert!("a".has_subsequence("a"));
    assert!(!"a".has_subsequence("b"));
    assert!("abcdef".has_subsequence("a"));
    assert!("abcdef".has_subsequence("abcdef"));
    assert!(!"abcdef".has_subsequence("abcdefg"));
    assert!("abcdef".has_subsequence("ace"));
    assert!("abcdef".has_subsequence("ace"));
    assert!("abcdef".has_subsequence("acf"));
    assert!("abcdef".has_subsequence("abc"));
    assert!("abcdef".has_subsequence("ace"));
    assert!("abcdef".has_subsequence("ace"));
    assert!("abcdef".has_subsequence("f"));
    assert!("aaaaa".has_subsequence("aaa"));
    assert!("aaaaa".has_subsequence("aaaa"));
    assert!("a".has_subsequence("a"));
    assert!(!"abcdef".has_subsequence("g"));
    assert!("abcdef".has_subsequence("a"));
    assert!("abcdef".has_subsequence("f"));
    assert!("abcdef".has_subsequence("d"));
    assert!(!"".has_subsequence("a"));
    assert!("abc".has_subsequence("b"));
    assert!("abc".has_subsequence("b"));
    assert!("abc".has_subsequence("b"));
    assert!("abc".has_subsequence("c"));
    assert!(!"abc".has_subsequence("d"));
    assert!("x".has_subsequence("x"));
    assert!(!"x".has_subsequence("y"));
    assert!("aaaaa".has_subsequence("aaaaa"));
    assert!(!"aaaaa".has_subsequence("aaaaaa"));
    assert!("abcdef".has_subsequence("abcdef"));
    assert!(!"abcdef".has_subsequence("abcdefg"));
    assert!("a b c d e f".has_subsequence("abcdef"));
    assert!(!"abcdef".has_subsequence("a b c"));
    assert!("abacabadabacaba".has_subsequence("ababa"));
    assert!("abacabadabacaba".has_subsequence("ababa"));
    assert!("xyxyxyxyxy".has_subsequence("yyy"));
    assert!("xyxyxyxyxy".has_subsequence("yyy"));
    assert!("xyxyxyxyxy".has_subsequence("yyy"));
}

#[test]
fn test_table_name_gen() {
    let mut name_gen = SnakeCaseNameGen::with("student");
    assert_eq!(name_gen.next().unwrap(), "student");
    assert_eq!(name_gen.next().unwrap(), "student_2");
    assert_eq!(name_gen.next().unwrap(), "student_3");
    assert_eq!(name_gen.next().unwrap(), "student_4");
}

#[test]
fn test_fit_to_width_ascii() {
    // ASCII characters, each width 1
    assert_eq!("hello".fit_to_width(0), "");
    assert_eq!("hello".fit_to_width(1), "h");
    assert_eq!("hello".fit_to_width(2), "he");
    assert_eq!("hello".fit_to_width(5), "hello");
    assert_eq!("hello".fit_to_width(10), "hello");
}

#[test]
fn test_fit_to_width_unicode_wide() {
    // Wide characters: each of these takes two columns
    let s = "你好吗";
    assert_eq!(s.fit_to_width(0), "");
    assert_eq!(s.fit_to_width(1), "");
    assert_eq!(s.fit_to_width(2), "你");
    assert_eq!(s.fit_to_width(3), "你");
    assert_eq!(s.fit_to_width(4), "你好");
    assert_eq!(s.fit_to_width(5), "你好");
    assert_eq!(s.fit_to_width(6), "你好吗");
    assert_eq!(s.fit_to_width(10), "你好吗");

    let emoji = "🙂🙃";
    assert_eq!(emoji.fit_to_width(0), "");
    assert_eq!(emoji.fit_to_width(1), "");
    assert_eq!(emoji.fit_to_width(2), "🙂");
    assert_eq!(emoji.fit_to_width(3), "🙂");
    assert_eq!(emoji.fit_to_width(4), "🙂🙃");
}

#[test]
fn test_fit_to_width_mixed() {
    let s = "a你b好c"; // a(1), wide(2), b(1), wide(2), c(1)
    assert_eq!(s.fit_to_width(0), "");
    assert_eq!(s.fit_to_width(1), "a");
    assert_eq!(s.fit_to_width(2), "a");
    assert_eq!(s.fit_to_width(3), "a你");
    assert_eq!(s.fit_to_width(4), "a你b");
    assert_eq!(s.fit_to_width(5), "a你b");
    assert_eq!(s.fit_to_width(6), "a你b好");
    assert_eq!(s.fit_to_width(7), "a你b好c");
    assert_eq!(s.fit_to_width(10), "a你b好c");
}

#[test]
fn test_fit_to_width_empty() {
    assert_eq!("".fit_to_width(0), "");
    assert_eq!("".fit_to_width(10), "");
}

#[test]
fn test_fit_to_width_combining() {
    let s = "a\u{0301}b";
    assert_eq!(s.fit_to_width(0), "");
    assert_eq!(s.fit_to_width(1), "a\u{0301}");
    assert_eq!(s.fit_to_width(2), "a\u{0301}b");
    assert_eq!(s.fit_to_width(3), "a\u{0301}b");
}

#[test]
fn test_fit_to_width_edge_cases() {
    let s = "ab";
    assert_eq!(s.fit_to_width(1), "a");
    assert_eq!(s.fit_to_width(2), "ab");

    let s = "你";
    assert_eq!(s.fit_to_width(1), "");
    assert_eq!(s.fit_to_width(2), "你");
}

#[test]
fn test_to_ascii() {
    assert_eq!('a'.to_ascii(), Some(b'a'));
    assert_eq!('~'.to_ascii(), Some(b'~'));
    assert_eq!('é'.to_ascii(), None);
    assert_eq!('你'.to_ascii(), None);
}

#[test]
fn test_human_readable_size() {
    assert_eq!(human_readable_size(0), "0 B");
    assert_eq!(human_readable_size(1023), "1023 B");
    assert_eq!(human_readable_size(1024), "1.00 KB");
    assert_eq!(human_readable_size(1536), "1.50 KB");
    assert_eq!(human_readable_size(1024 * 1024), "1.00 MB");
    assert_eq!(human_readable_size(5 * 1024 * 1024 * 1024), "5.00 GB");
    assert_eq!(human_readable_size(1024 * 1024 * 1024 * 1024), "1.00 TB");
    assert_eq!(human_readable_size(1024u64.pow(5)), "1.00 PB");
    assert_eq!(human_readable_size(u64::MAX), "16384.00 PB");
}

#[test]
fn test_osc52_sequence_encodes() {
    // The escape must carry the base-64 text of the bytes, not the bytes.
    assert_eq!(osc52_sequence(b"hello"), "\x1b]52;c;aGVsbG8=\x07");
    assert_eq!(osc52_sequence(b""), "\x1b]52;c;\x07");
}
