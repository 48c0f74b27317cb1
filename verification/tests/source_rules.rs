use cstyle::source::{is_identifier, is_identifier_continue, is_identifier_start, normalize_line_endings};

fn c(text: &str) -> Vec<char> {
    text.chars().collect()
}

#[test]
fn line_endings_become_line_feeds() {
    let out: String = normalize_line_endings(&c("a\r\nb\rc\n\r")).iter().collect();
    assert_eq!(out, "a\nb\nc\n\n");
}

#[test]
fn normalized_line_endings_stay_normalized() {
    let once = normalize_line_endings(&c("x\r\r\ny\r"));
    assert!(!once.contains(&'\r'));
    assert_eq!(normalize_line_endings(&once), once);
}

#[test]
fn identifiers_start_with_a_letter_underscore_or_dollar() {
    assert!(is_identifier(&c("_foo1")));
    assert!(is_identifier(&c("$x")));
    assert!(is_identifier(&c("été")));
    assert!(!is_identifier(&c("1abc")));
    assert!(!is_identifier(&c("a-b")));
    assert!(!is_identifier(&c("")));
    assert!(is_identifier_start('é'));
    assert!(!is_identifier_start('9'));
    assert!(is_identifier_continue('9'));
}

#[test]
fn white_space_is_the_unicode_property() {
    assert!(cstyle::text::is_whitespace('\u{3000}'));
    assert!(cstyle::text::is_whitespace('\u{85}'));
    assert!(!cstyle::text::is_whitespace('\u{200b}'));
    for code in 0u32..=0x10ffff {
        if let Some(ch) = char::from_u32(code) {
            assert_eq!(cstyle::text::is_whitespace(ch), ch.is_whitespace(), "{code:x}");
        }
    }
}
