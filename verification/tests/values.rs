use coduck::bridge::write_ui;
use coduck::error::Error;
use coduck::json::Json;
use coduck::path::{append_bytes, bytes_of, copy_bytes, join_path};
use coduck::rpc::{FrameReader, Rpc};
use coduck::text::{
    begins_with, characters, decimal, in_order, lowercase, push_padded, same_bytes, same_text,
    split_bytes, split_text, starts_with,
};

fn json(text: &str) -> Json {
    let line = format!("{text}\n");
    FrameReader::new().read_frame(line.as_bytes()).unwrap().frame.unwrap()
}

#[test]
fn numbers_keep_their_kind() {
    assert_eq!(json("0"), Json::Unsigned(0));
    assert_eq!(json("18446744073709551615"), Json::Unsigned(u64::MAX));
    assert_eq!(json("-1"), Json::Negative(-1));
    assert_eq!(json("-9223372036854775808"), Json::Negative(i64::MIN));
    for text in ["1.0", "18446744073709551616", "-0.0", "1e3"] {
        assert!(matches!(json(text), Json::Real(_)));
        assert!(!json(text).is_id());
        assert!(!json(text).is_signed());
    }
    assert!(json("9223372036854775807").is_signed());
    assert!(!json("9223372036854775808").is_signed());
    assert!(json("9223372036854775808").is_id());
    assert!(json("-1").is_signed() && json("-1").is_id());
    assert_eq!(json("7").as_unsigned(), Some(7));
    assert_eq!(json("-7").as_unsigned(), None);
}

#[test]
fn members_are_found_and_replaced() {
    let value = json("{\"a\":1,\"b\":{\"c\":\"x\"},\"a\":2}");
    assert_eq!(value.at("a").as_unsigned(), Some(2));
    assert_eq!(value.at("b").at("c").as_text(), Some("x"));
    assert!(value.get("d").is_none() && value.at("d").is_null() && !value.has("d"));
    assert!(Json::Null.at("a").is_null());
    let changed = value.with("a", Json::Null).with("d", Json::Bool(true));
    assert!(changed.has("a") && changed.at("a").is_null());
    assert_eq!(changed.at("d").as_bool(), Some(true));
    assert_eq!(write_ui(&changed).unwrap(), "{\"a\":null,\"b\":{\"c\":\"x\"},\"d\":true}");
}

#[test]
fn texts_are_told_apart() {
    assert!(Json::text("a").is_text("a"));
    assert!(!Json::text("a").is_text("b"));
    assert!(!Json::Unsigned(1).is_text("1"));
    assert_eq!(Json::text("").as_filled_text(), None);
    assert_eq!(Json::text("x").as_filled_text(), Some("x"));
    assert!(!Json::text("1").same_id(&Json::Unsigned(1)));
    assert!(Json::text("1").same_id(&Json::text("1")));
    assert!(Json::object().is_object() && !Json::Null.is_object());
}

#[test]
fn values_are_written_as_they_were_read() {
    for text in [
        "null",
        "[true,false,[],{}]",
        "{\"a\":-1,\"b\":1.5,\"c\":\"\\\"\\\\\\n\"}",
        "\"\u{1f600}\"",
    ] {
        let value = json(text);
        assert_eq!(write_ui(&value).unwrap(), text);
        assert_eq!(Rpc::send(&value).unwrap(), format!("{text}\n").into_bytes());
        assert_eq!(value.clone(), value);
    }
    for text in ["", "nul", "{\"a\"}", "[1,]", "1 2"] {
        let line = format!("{text}\n");
        assert_eq!(
            FrameReader::new().read_frame(line.as_bytes()).err(),
            Some(Error::InvalidJson)
        );
    }
}

#[test]
fn values_may_be_nested_but_not_without_end() {
    let nested = |depth: usize| format!("{}{}\n", "[".repeat(depth), "]".repeat(depth));
    assert!(FrameReader::new().read_frame(nested(127).as_bytes()).is_ok());
    assert_eq!(
        FrameReader::new().read_frame(nested(128).as_bytes()).err(),
        Some(Error::InvalidJson)
    );
}

#[test]
fn texts_are_cut_at_marks() {
    assert_eq!(split_text("a.b.", '.'), vec!["a", "b", ""]);
    assert_eq!(split_text("", '.'), vec![""]);
    assert_eq!(split_bytes(b"a::b", b':'), vec![b"a".to_vec(), b"".to_vec(), b"b".to_vec()]);
    assert_eq!(characters("\u{e9}x"), vec!['\u{e9}', 'x']);
    assert!(starts_with("abc", "ab") && starts_with("abc", "") && !starts_with("ab", "abc"));
    assert!(begins_with(b"abc", b"ab") && !begins_with(b"abc", b"b"));
    assert!(same_text("a", "a") && !same_text("a", "A"));
    assert!(same_bytes(b"a", b"a") && !same_bytes(b"a", b"ab"));
}

#[test]
fn texts_are_ordered_and_padded() {
    assert_eq!(lowercase("ABZ\u{c9}1"), "abz\u{c9}1");
    assert_eq!(decimal(0), "0");
    assert_eq!(decimal(u64::MAX), "18446744073709551615");
    assert!(in_order("a", "a") && in_order("a", "a-") && in_order("a-", "b"));
    assert!(!in_order("b", "a") && !in_order("aa", "a"));
    let mut output = "x".to_owned();
    push_padded(&mut output, "\u{e9}", 3);
    push_padded(&mut output, "long", 2);
    assert_eq!(output, "x\u{e9}  long");
}

#[test]
fn paths_are_joined() {
    assert_eq!(join_path(b"/a", b"b"), b"/a/b");
    assert_eq!(join_path(b"/a/", b"b"), b"/a/b");
    assert_eq!(join_path(b"", b"b"), b"b");
    assert_eq!(join_path(b"/a", b"/b"), b"/b");
    assert_eq!(join_path(b"/a", b""), b"/a/");
    assert_eq!(bytes_of("\u{e9}"), vec![0xc3, 0xa9]);
    let mut bytes = copy_bytes(b"a");
    append_bytes(&mut bytes, b"bc");
    assert_eq!(bytes, b"abc");
}

#[test]
fn failures_are_said_in_words() {
    for (error, words) in [
        (Error::ProfileInUse, "profile is in use; close its running Coduck session first"),
        (Error::HomeUnset, "HOME must be set and nonempty"),
        (Error::LogoutInterrupted, "interrupted; retry logout to confirm local credential removal"),
        (Error::TerminalNotConnected, "Codex terminal did not connect"),
        (Error::Outside("the system's words".to_owned()), "the system's words"),
    ] {
        assert_eq!(error.message(), words);
    }
}
