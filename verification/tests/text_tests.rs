use augment_reset::text::{
    index_of_text,
    chars_of, concat2, concat3, contains_chars, contains_text, ends_with_text, hex_char,
    matches_at, push_decimal, push_hex, push_signed_decimal, same_text, starts_with_text,
};

#[test]
fn the_characters_of_a_string() {
    assert_eq!(chars_of("aé😀"), vec!['a', 'é', '😀']);
    assert_eq!(chars_of(""), Vec::<char>::new());
}

#[test]
fn texts_are_joined() {
    assert_eq!(concat2("ab", "cd"), "abcd");
    assert_eq!(concat2("", ""), "");
    assert_eq!(concat3("a", "", "c"), "ac");
}

#[test]
fn equal_texts() {
    assert!(same_text("abc", "abc"));
    assert!(same_text("", ""));
    assert!(!same_text("abc", "abd"));
    assert!(!same_text("abc", "ab"));
    assert!(!same_text("ab", "abc"));
}

#[test]
fn substrings_are_found_anywhere() {
    assert!(contains_text("my augment key", "augment"));
    assert!(contains_text("augment", "augment"));
    assert!(contains_text("xaugment", "augment"));
    assert!(contains_text("anything", ""));
    assert!(contains_text("", ""));
    assert!(!contains_text("", "a"));
    assert!(!contains_text("augmen", "augment"));
    assert!(!contains_text("Augment", "augment"));
    assert!(!contains_text("aug ment", "augment"));
    assert!(contains_text("aaab", "aab"));
}

#[test]
fn substrings_of_characters() {
    let hay = chars_of("hello");
    assert!(matches_at(&hay, &chars_of("ell"), 1));
    assert!(!matches_at(&hay, &chars_of("ell"), 0));
    assert!(matches_at(&hay, &chars_of(""), 5));
    assert!(!matches_at(&hay, &chars_of(""), 6));
    assert!(!matches_at(&hay, &chars_of("lo"), 4));
    assert!(!matches_at(&hay, &chars_of("hello!"), 0));
    assert!(contains_chars(&hay, &chars_of("lo")));
    assert!(!contains_chars(&hay, &chars_of("ol")));
}

#[test]
fn beginnings_and_ends() {
    assert!(starts_with_text("PyCharm2023.1", "PyCharm"));
    assert!(starts_with_text("PyCharm", ""));
    assert!(!starts_with_text("Py", "PyCharm"));
    assert!(!starts_with_text("xPyCharm", "PyCharm"));
    assert!(ends_with_text("state.vscdb.20240101.bak", ".bak"));
    assert!(ends_with_text(".bak", ".bak"));
    assert!(!ends_with_text("bak", ".bak"));
    assert!(!ends_with_text("a.bak.txt", ".bak"));
}

#[test]
fn digits_of_both_cases() {
    assert_eq!(hex_char(0, false), '0');
    assert_eq!(hex_char(9, true), '9');
    assert_eq!(hex_char(10, false), 'a');
    assert_eq!(hex_char(15, false), 'f');
    assert_eq!(hex_char(10, true), 'A');
    assert_eq!(hex_char(15, true), 'F');
}

#[test]
fn decimal_rendering() {
    let mut out = String::from("n=");
    push_decimal(&mut out, 0);
    assert_eq!(out, "n=0");
    let mut out = String::new();
    push_decimal(&mut out, 1500);
    assert_eq!(out, "1500");
    let mut out = String::new();
    push_decimal(&mut out, u64::MAX);
    assert_eq!(out, "18446744073709551615");
    let mut out = String::new();
    push_signed_decimal(&mut out, -7);
    assert_eq!(out, "-7");
    let mut out = String::new();
    push_signed_decimal(&mut out, i64::MAX);
    assert_eq!(out, "9223372036854775807");
}

#[test]
fn hexadecimal_rendering() {
    let mut out = String::new();
    push_hex(&mut out, 0xab, 4);
    assert_eq!(out, "00ab");
    let mut out = String::from(">");
    push_hex(&mut out, 0x12345, 4);
    assert_eq!(out, ">2345");
    let mut out = String::new();
    push_hex(&mut out, 0xff, 0);
    assert_eq!(out, "");
    let mut out = String::new();
    push_hex(&mut out, u64::MAX, 16);
    assert_eq!(out, "ffffffffffffffff");
}

#[test]
fn the_place_of_a_text_among_strings() {
    let strings = vec!["a".to_string(), "b".to_string(), "a".to_string()];
    assert_eq!(index_of_text(&strings, "a"), Some(0));
    assert_eq!(index_of_text(&strings, "b"), Some(1));
    assert_eq!(index_of_text(&strings, "c"), None);
    assert_eq!(index_of_text(&vec![], ""), None);
}
