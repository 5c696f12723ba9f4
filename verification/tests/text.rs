use agent_driver::text::{
    chars_of, contains_text, copy_text, decimal_text, is_blank, join, join3, same_text,
};

#[test]
fn blank_lines() {
    assert!(is_blank(""));
    assert!(is_blank(" "));
    assert!(is_blank("\t\r\n \u{2028}"));
    assert!(!is_blank("a"));
    assert!(!is_blank("  a  "));
    assert!(!is_blank("\u{200b}"));
    assert!(!is_blank("_"));
}

#[test]
fn same_text_compares_contents() {
    assert!(same_text("", ""));
    assert!(same_text("abc", "abc"));
    assert!(!same_text("abc", "abd"));
    assert!(!same_text("abc", "ab"));
    assert!(!same_text("abc", "ABC"));
}

#[test]
fn joins() {
    assert_eq!(join("ab", "cd"), "abcd");
    assert_eq!(join("", ""), "");
    assert_eq!(join3("a", "", "c"), "ac");
    assert_eq!(join3("x: ", "y", "."), "x: y.");
}

#[test]
fn copy_text_copies() {
    assert_eq!(copy_text(&None), None);
    assert_eq!(copy_text(&Some("s".to_string())), Some("s".to_string()));
}

#[test]
fn chars_of_lists_the_characters() {
    assert_eq!(chars_of(""), Vec::<char>::new());
    assert_eq!(chars_of("a,é\u{1F600}"), vec!['a', ',', 'é', '\u{1F600}']);
}

#[test]
fn contains_text_finds_substrings() {
    assert!(contains_text("data:image/png;base64", "image/png"));
    assert!(contains_text("image/png", "image/png"));
    assert!(contains_text("ximage/png", "image/png"));
    assert!(contains_text("abc", ""));
    assert!(contains_text("", ""));
    assert!(!contains_text("", "a"));
    assert!(!contains_text("image/pn", "image/png"));
    assert!(!contains_text("image/pngx", "image/pngy"));
    assert!(contains_text("aab", "ab"));
    assert!(contains_text("ééa", "éa"));
    assert!(!contains_text("abc", "ca"));
}

#[test]
fn decimal_text_writes_numbers() {
    assert_eq!(decimal_text(0), "0");
    assert_eq!(decimal_text(7), "7");
    assert_eq!(decimal_text(10), "10");
    assert_eq!(decimal_text(5000), "5000");
    assert_eq!(decimal_text(1234567890), "1234567890");
    assert_eq!(decimal_text(4294967295), "4294967295");
    assert_eq!(decimal_text(u64::MAX), "18446744073709551615");
}
