use lauren_chatbot::text::{contains, split_lines, split_whitespace, str_eq, u64_to_string};

#[test]
fn contains_finds_substrings() {
    assert!(contains("hello world", "lo w"));
    assert!(contains("abc", ""));
    assert!(!contains("abc", "abcd"));
    assert!(!contains("abc", "ac"));
}

#[test]
fn strings_compare_by_characters() {
    assert!(str_eq("ab", "ab"));
    assert!(!str_eq("ab", "ba"));
}

#[test]
fn decimal_rendering() {
    assert_eq!(u64_to_string(0), "0");
    assert_eq!(u64_to_string(1200), "1200");
    assert_eq!(u64_to_string(u64::MAX), "18446744073709551615");
}

#[test]
fn whitespace_words_and_lines_match_std() {
    for text in ["  a  b\tc\n", "", "one", "x\u{3000}y", "a\r\nb\n\nc\n", "\n", "\r"] {
        let words: Vec<String> = text.split_whitespace().map(|w| w.to_string()).collect();
        assert_eq!(split_whitespace(text), words);
        let lines: Vec<String> = text.lines().map(|l| l.to_string()).collect();
        assert_eq!(split_lines(text), lines);
    }
}
