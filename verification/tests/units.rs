//! Unit tests for the text helpers and the untyped fragment accessors.
use rockdove::embed_builder::limit_text_length;
use rockdove::model::{Fragment, FragmentEntry, JsonText};
use rockdove::text::{str_eq, u64_to_dec};

fn entry(key: &str, raw: &str, text: Option<&str>) -> FragmentEntry {
    FragmentEntry {
        key: key.to_string(),
        value: JsonText { raw: raw.to_string(), text: text.map(|t| t.to_string()) },
    }
}

#[test]
fn short_text_passes_through() {
    assert_eq!(limit_text_length("abc", 100), "abc");
    assert_eq!(limit_text_length("", 3), "");
}

#[test]
fn long_text_keeps_a_prefix_and_gains_the_marker() {
    assert_eq!(limit_text_length("abcdefgh", 7), "abcd...");
    assert_eq!(limit_text_length("abcdefg", 7), "abcdefg");
}

#[test]
fn truncation_counts_characters_not_bytes() {
    // Five characters over a limit of four: one character stays, and the
    // two-byte character is never split.
    assert_eq!(limit_text_length("héllo", 4), "h...");
}

#[test]
fn str_eq_compares_characters() {
    assert!(str_eq("abc", "abc"));
    assert!(!str_eq("abc", "abd"));
    assert!(!str_eq("abc", "abcd"));
    assert!(str_eq("", ""));
}

#[test]
fn decimal_rendering_matches_display() {
    assert_eq!(u64_to_dec(0), "0");
    assert_eq!(u64_to_dec(9), "9");
    assert_eq!(u64_to_dec(10), "10");
    assert_eq!(u64_to_dec(1234567890), "1234567890");
    assert_eq!(u64_to_dec(u64::MAX), "18446744073709551615");
}

#[test]
fn fragment_lookup_takes_the_first_match() {
    let fragment = Fragment {
        entries: vec![
            entry("title", "\"first\"", Some("first")),
            entry("title", "\"second\"", Some("second")),
        ],
    };
    let value = fragment.get("title").expect("the key is present");
    assert_eq!(value.text, Some("first".to_string()));
    assert_eq!(fragment.get("body"), None);
}

#[test]
fn fragment_get_str_keeps_only_strings() {
    let fragment = Fragment {
        entries: vec![entry("number", "42", None), entry("name", "\"mocha\"", Some("mocha"))],
    };
    assert_eq!(fragment.get_str("name"), Some(&"mocha".to_string()));
    assert_eq!(fragment.get_str("number"), None);
    assert_eq!(fragment.get_str("missing"), None);
}
