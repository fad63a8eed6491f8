use ferium_config::json::Json;
use ferium_config::wire::{parse, print, PrintError};

fn text(s: &str) -> Json {
    Json::Text(s.to_string())
}

fn printed(j: &Json) -> String {
    String::from_utf8(print(j).unwrap()).unwrap()
}

#[test]
fn parsing_opens_a_document_all_the_way_down() {
    let doc = parse(b"{\"b\": [1, -2, null, true, \"x\"], \"a\": {\"n\": 18446744073709551615}}").unwrap();
    assert_eq!(
        doc,
        Json::Object(vec![
            (
                "b".to_string(),
                Json::Array(vec![Json::Int(1), Json::Int(-2), Json::Null, Json::Bool(true), text("x")]),
            ),
            ("a".to_string(), Json::Object(vec![("n".to_string(), Json::Int(18446744073709551615))])),
        ])
    );
}

#[test]
fn parsing_records_a_fraction_as_one() {
    assert_eq!(parse(b"1.5").unwrap(), Json::Real);
    assert_eq!(parse(b"1e3").unwrap(), Json::Real);
    assert_eq!(parse(b"18446744073709551616").unwrap(), Json::Real);
    assert_eq!(parse(b"-9223372036854775808").unwrap(), Json::Int(i64::MIN as i128));
}

#[test]
fn parsing_keeps_the_last_of_two_members_with_one_key() {
    assert_eq!(
        parse(b"{\"a\": 1, \"b\": 2, \"a\": 3}").unwrap(),
        Json::Object(vec![("a".to_string(), Json::Int(3)), ("b".to_string(), Json::Int(2))])
    );
}

#[test]
fn parsing_refuses_what_is_no_json() {
    assert!(parse(b"").is_err());
    assert!(parse(b"{").is_err());
    assert!(parse(b"[1,]").is_err());
    assert!(parse(b"1 2").is_err());
    assert!(parse(&[b'"', 0xff, b'"']).is_err());
}

#[test]
fn printing_indents_by_two_spaces() {
    let doc = Json::Object(vec![
        ("z".to_string(), Json::Array(vec![Json::Int(-7), Json::Bool(false), Json::Null])),
        ("a".to_string(), text("line\nbreak")),
        ("empty".to_string(), Json::Object(vec![])),
    ]);
    assert_eq!(
        printed(&doc),
        "{\n  \"z\": [\n    -7,\n    false,\n    null\n  ],\n  \"a\": \"line\\nbreak\",\n  \"empty\": {}\n}"
    );
    assert_eq!(printed(&Json::Int(u64::MAX as i128)), "18446744073709551615");
    assert_eq!(printed(&Json::Int(i64::MIN as i128)), "-9223372036854775808");
}

#[test]
fn printing_and_parsing_give_the_document_back() {
    let doc = Json::Array(vec![
        Json::Object(vec![("k".to_string(), text("v")), ("K".to_string(), Json::Int(0))]),
        Json::Array(vec![]),
        text("\u{00e9}\"\\"),
    ]);
    assert_eq!(parse(&print(&doc).unwrap()).unwrap(), doc);
}

#[test]
fn printing_refuses_what_cannot_be_written() {
    assert!(matches!(print(&Json::Real), Err(PrintError::Unprintable)));
    assert!(matches!(print(&Json::Int(u64::MAX as i128 + 1)), Err(PrintError::Unprintable)));
    assert!(matches!(print(&Json::Int(i64::MIN as i128 - 1)), Err(PrintError::Unprintable)));
    let twice = Json::Object(vec![("a".to_string(), Json::Int(1)), ("a".to_string(), Json::Int(2))]);
    assert!(matches!(print(&twice), Err(PrintError::Unprintable)));
    let deep = Json::Array(vec![Json::Object(vec![("x".to_string(), Json::Array(vec![Json::Real]))])]);
    assert!(matches!(print(&deep), Err(PrintError::Unprintable)));
}

#[test]
fn a_member_is_found_by_its_key() {
    let doc = Json::Object(vec![
        ("a".to_string(), Json::Int(1)),
        ("b".to_string(), Json::Int(2)),
        ("a".to_string(), Json::Int(3)),
    ]);
    assert_eq!(doc.get("a"), Some(&Json::Int(1)));
    assert_eq!(doc.get("b"), Some(&Json::Int(2)));
    assert_eq!(doc.get("c"), None);
    assert_eq!(doc.get(""), None);
    assert_eq!(Json::Array(vec![Json::Int(1)]).get("0"), None);
}
