use svault::json::{texts_in, Json};
use svault::order::{precedes, sorted_positions, sorted_texts};
use svault::paths::{
    canonical_path, components_of, file_name, has_parent_component, join, plain, strip_prefix,
    with_file_name,
};
use svault::text::{decimal, integer, joined, same, same_bytes, split_lines};
use svault::wire::Response;

fn s(t: &str) -> String {
    t.to_string()
}

#[test]
fn members_are_read_by_kind() {
    let mut j = Json::object();
    j.put("a", Json::UInt(7));
    j.put("b", Json::string("x"));
    j.put("c", Json::Bool(true));
    j.put("d", Json::integer(-3));
    j.put("e", Json::Null);
    assert_eq!(j.uint_at("a"), Some(7));
    assert_eq!(j.int_at("a"), Some(7));
    assert_eq!(j.text_at("b"), Some("x"));
    assert_eq!(j.bool_at("c"), Some(true));
    assert_eq!(j.int_at("d"), Some(-3));
    assert_eq!(j.uint_at("d"), None);
    assert!(j.present("a") && !j.present("e") && !j.present("z"));
    assert!(j.is_object() && !Json::Null.is_object());
    assert_eq!(j.duplicate(), j);
    assert_eq!(Json::string_or_null(None), Json::Null);
    assert_eq!(Json::uint_or_null(Some(1)), Json::UInt(1));
    let list = Json::strings(&[s("x"), s("y")]);
    match &list {
        Json::Array(items) => assert_eq!(texts_in(items), ["x", "y"]),
        _ => panic!("strings are an array"),
    }
}

#[test]
fn text_is_that_of_serde_json() {
    let mut j = Json::object();
    j.put("quoted \"\\", Json::string("line\nbreak \u{1} \u{e9} \u{7f}"));
    j.put("n", Json::Array(vec![Json::UInt(u64::MAX), Json::integer(i64::MIN), Json::Null]));
    j.put("b", Json::Bool(false));
    let text = j.to_text();
    let v: serde_json::Value = serde_json::from_str(&text).unwrap();
    assert_eq!(v["quoted \"\\"].as_str(), Some("line\nbreak \u{1} \u{e9} \u{7f}"));
    assert_eq!(v["n"][0].as_u64(), Some(u64::MAX));
    assert_eq!(v["n"][1].as_i64(), Some(i64::MIN));
    assert_eq!(v["b"].as_bool(), Some(false));
    assert_eq!(
        Json::string("a\"\\\u{8}\u{c}\n\r\t\u{1f}/").to_text(),
        serde_json::to_string("a\"\\\u{8}\u{c}\n\r\t\u{1f}/").unwrap()
    );
}

#[test]
fn texts_are_ordered_by_their_characters() {
    assert!(precedes("A", "B"));
    assert!(precedes("A", "AA"));
    assert!(!precedes("B", "A"));
    assert!(precedes("Z", "a"));
    let keys = [s("b"), s("a"), s("c")];
    assert_eq!(sorted_positions(&keys), [1, 0, 2]);
    assert_eq!(sorted_texts(&keys), ["a", "b", "c"]);
}

#[test]
fn numbers_and_texts() {
    assert_eq!(decimal(0), "0");
    assert_eq!(decimal(u64::MAX), "18446744073709551615");
    assert_eq!(integer(i64::MIN), "-9223372036854775808");
    assert_eq!(joined("a", "b"), "ab");
    assert!(same("x", "x") && !same("x", "y"));
    assert!(same_bytes(b"x", b"x") && !same_bytes(b"x", b"xy"));
}

#[test]
fn paths_are_taken_apart() {
    assert_eq!(canonical_path(b"/a//b/./c", b"/x"), b"/a/b/c");
    assert_eq!(canonical_path(b"c", b"/x"), b"/x/c");
    assert_eq!(components_of(b"a//b"), [b"a".to_vec(), Vec::new(), b"b".to_vec()]);
    assert_eq!(file_name(b"/a/b"), Some(b"b".to_vec()));
    assert_eq!(file_name(b"/"), None);
    assert_eq!(with_file_name(b"/a/b", b"c"), b"/a/c");
    assert!(has_parent_component(b"a/../b"));
    assert!(!has_parent_component(b"a/..b"));
    assert!(plain(b"a/b"));
    assert_eq!(strip_prefix(b"/srv/a/b", b"/srv"), Some(b"a/b".to_vec()));
    assert_eq!(strip_prefix(b"/srvx", b"/srv"), None);
    assert_eq!(join(b"/a", b"b"), b"/a/b");
}

#[test]
fn answers_say_whether_they_are_good() {
    let r = Response::ok("q", Json::Null);
    assert!(r.ok && r.error.is_none());
    let r = Response::err("q", "E_X", "why");
    assert!(!r.ok && r.result.is_none());
    let r = Response::err_data("q", "E_X", "why", Json::UInt(1));
    assert_eq!(r.error.unwrap().data, Some(Json::UInt(1)));
    let r = Response::failed("q", &svault::error::VaultError::Locked);
    assert_eq!(r.error.unwrap().code, "E_LOCKED");
}

#[test]
fn lines_are_split_as_the_standard_library_does() {
    for text in ["", "\n", "a", "a\n", "a\n\nb", "a\r\nb\r\n", "\r\n\r", "a\rb\n\r\r\n", "é\nß"] {
        let expected: Vec<&str> = text.lines().filter(|l| !l.is_empty()).collect();
        assert_eq!(split_lines(text), expected, "{text:?}");
    }
}
