use svault::dotenv::{escape_value, serialize, validate_value, Entry};

fn entry(key: &str, value: &str) -> Entry {
    Entry {
        key: key.to_string(),
        value: value.to_string(),
    }
}

fn all_ok(n: usize) -> Vec<bool> {
    vec![true; n]
}

fn roundtrip(entries: &[Entry]) {
    let bytes = serialize(entries, &all_ok(entries.len())).ok().unwrap();
    let cursor = std::io::Cursor::new(&bytes);
    let iter = dotenvy::from_read_iter(cursor);
    let parsed: std::collections::HashMap<String, String> =
        iter.map(|r| r.expect("dotenv parse")).collect();
    assert_eq!(parsed.len(), entries.len());
    for e in entries {
        assert_eq!(
            parsed.get(&e.key).map(String::as_str),
            Some(e.value.as_str()),
            "value for {} must roundtrip byte-for-byte",
            e.key
        );
    }
}

#[test]
fn simple_values_are_bare_and_sorted() {
    let bytes = serialize(&[entry("B_KEY", "two"), entry("A_KEY", "one")], &all_ok(2))
        .ok()
        .unwrap();
    let text = String::from_utf8(bytes).unwrap();
    assert_eq!(text, "A_KEY=one\nB_KEY=two\n");
}

#[test]
fn adversarial_values_roundtrip_exactly() {
    roundtrip(&[
        entry("SPACES", "hello world  "),
        entry("QUOTES", "he said \"hi\" and 'bye'"),
        entry("DOLLAR", "cost $100 and ${VAR} and $HOME"),
        entry("BACKTICK", "run `whoami`"),
        entry("HASH", "value # not a comment"),
        entry("EQUALS", "a=b=c"),
        entry("UNICODE", "café 中文 🔐"),
        entry("NEWLINES", "line1\nline2\r\nline3\tend"),
        entry("BACKSLASH", "C:\\path\\to"),
        entry("EMPTYISH", " "),
    ]);
}

#[test]
fn dollar_expansion_can_never_rewrite_values() {
    // A reader that expands $VARS must still recover the literal bytes.
    roundtrip(&[
        entry("EXPANSION", "${HOME}/$PATH"),
        entry("NESTED", "$\"quoted\"$"),
    ]);
}

#[test]
fn control_characters_are_rejected() {
    let mut bad = String::from("ok");
    bad.push('\u{0}');
    assert!(validate_value(&bad).is_err());
    assert!(validate_value("fine\nvalues\r\tok").is_ok());
    assert!(validate_value("café ✓").is_ok());
}

#[test]
fn duplicate_keys_rejected() {
    assert!(serialize(&[entry("A", "1"), entry("A", "2")], &all_ok(2)).is_err());
}

#[test]
fn every_fault_of_an_entry_has_its_message() {
    let dup = serialize(&[entry("A", "1"), entry("B", "2"), entry("A", "3")], &all_ok(3));
    assert_eq!(
        dup.err().unwrap().message(),
        "invalid input: duplicate keys in injection"
    );
    let bad_key = serialize(&[entry("not a key", "1")], &[false]);
    assert_eq!(
        bad_key.err().unwrap().message(),
        "invalid input: invalid key name"
    );
    let bad_value = serialize(&[entry("A", "\u{7}")], &all_ok(1));
    assert_eq!(
        bad_value.err().unwrap().message(),
        "invalid input: secret value contains control characters not representable in dotenv"
    );
    // The first fault in the order of the keys is the one that is reported.
    let both = serialize(&[entry("B", "\u{7}"), entry("A A", "1")], &[true, false]);
    assert_eq!(
        both.err().unwrap().message(),
        "invalid input: invalid key name"
    );
}

#[test]
fn values_are_quoted_only_where_they_must_be() {
    assert_eq!(escape_value("plain-value_1"), "plain-value_1");
    assert_eq!(escape_value("café"), "café");
    assert_eq!(escape_value(""), "\"\"");
    assert_eq!(escape_value("a b"), "\"a b\"");
    assert_eq!(escape_value("a\u{3000}b"), "\"a\u{3000}b\"");
    assert_eq!(escape_value("x\"y"), "\"x\\\"y\"");
    assert_eq!(escape_value("$HOME"), "\"\\$HOME\"");
    assert_eq!(escape_value("a\\b"), "\"a\\\\b\"");
    assert_eq!(escape_value("two\nlines"), "\"two\nlines\"");
}

#[test]
fn the_order_of_entries_does_not_change_the_text() {
    let a = serialize(
        &[entry("C", "3"), entry("A", "1"), entry("B", "2")],
        &all_ok(3),
    );
    let b = serialize(
        &[entry("B", "2"), entry("C", "3"), entry("A", "1")],
        &all_ok(3),
    );
    assert_eq!(a.ok(), b.ok());
    let a = serialize(&[entry("A", "1"), entry("B", "2"), entry("A", "3")], &all_ok(3));
    let b = serialize(&[entry("A", "3"), entry("A", "1"), entry("B", "2")], &all_ok(3));
    assert_eq!(a.err().unwrap().message(), b.err().unwrap().message());
}

#[test]
fn white_space_and_control_agree_with_the_standard_library() {
    for n in 0u32..0x11_0000 {
        if let Some(c) = char::from_u32(n) {
            let written = escape_value(&c.to_string());
            let quoted = written.starts_with('"') && written.len() > c.len_utf8();
            let expected = c.is_whitespace()
                || c.is_control()
                || matches!(c, '"' | '\'' | '$' | '`' | '#' | '=' | '\\');
            assert_eq!(quoted, expected, "U+{n:04X}");
            let fine = validate_value(&c.to_string()).is_ok();
            assert_eq!(fine, !c.is_control() || matches!(c, '\n' | '\r' | '\t'));
        }
    }
}
