use scaleway::json::{Json, Member};

fn member(name: &str, value: Json) -> Member {
    Member { name: name.to_string(), value }
}

#[test]
fn parse_reads_every_kind_of_value() {
    let doc = Json::parse(br#" { "n": null, "t": true, "f": false, "i": 42, "s": "x", "a": [1, "two"], "o": {} } "#).unwrap();
    assert_eq!(
        doc,
        Json::Object(vec![
            member("n", Json::Null),
            member("t", Json::Bool(true)),
            member("f", Json::Bool(false)),
            member("i", Json::Number("42".to_string())),
            member("s", Json::Str("x".to_string())),
            member("a", Json::Array(vec![Json::Number("1".to_string()), Json::Str("two".to_string())])),
            member("o", Json::Object(vec![])),
        ])
    );
}

#[test]
fn parse_keeps_numbers_as_their_text() {
    assert_eq!(Json::parse(b"-7").unwrap(), Json::Number("-7".to_string()));
    assert_eq!(Json::parse(b"1.5").unwrap(), Json::Number("1.5".to_string()));
    assert_eq!(Json::parse(b"18446744073709551615").unwrap(), Json::Number("18446744073709551615".to_string()));
}

#[test]
fn parse_unescapes_strings() {
    assert_eq!(
        Json::parse(r#""a\"b\\c\n\u00e9é""#.as_bytes()).unwrap(),
        Json::Str("a\"b\\c\n\u{e9}\u{e9}".to_string())
    );
}

#[test]
fn parse_refuses_what_is_no_json() {
    assert!(Json::parse(b"").is_err());
    assert!(Json::parse(b"{").is_err());
    assert!(Json::parse(b"{} x").is_err());
    assert!(Json::parse(b"<html></html>").is_err());
    assert!(Json::parse(&[0xff, 0xfe]).is_err());
    assert!(!Json::parse(b"nul").unwrap_err().is_empty());
}

#[test]
fn text_is_compact_and_keeps_the_order() {
    let doc = Json::Object(vec![
        member("b", Json::Array(vec![Json::Number("1".to_string()), Json::Bool(true), Json::Null])),
        member("a", Json::Str("x".to_string())),
        member("c", Json::Object(vec![member("d", Json::Bool(false))])),
    ]);
    assert_eq!(doc.to_text(), r#"{"b":[1,true,null],"a":"x","c":{"d":false}}"#);
}

#[test]
fn text_of_empty_containers() {
    assert_eq!(Json::Object(vec![]).to_text(), "{}");
    assert_eq!(Json::Array(vec![]).to_text(), "[]");
    assert_eq!(Json::Array(vec![Json::Array(vec![])]).to_text(), "[[]]");
}

#[test]
fn text_escapes_strings_and_names() {
    let doc = Json::Object(vec![member("k\"", Json::Str("a\"b\\c\n\t\u{1}\u{e9}".to_string()))]);
    assert_eq!(doc.to_text(), "{\"k\\\"\":\"a\\\"b\\\\c\\n\\t\\u0001\u{e9}\"}");
}

#[test]
fn text_then_parse_gives_the_document_back() {
    let doc = Json::Object(vec![
        member("name", Json::Str("caf\u{e9} \"x\"".to_string())),
        member("list", Json::Array(vec![Json::Null, Json::Number("12".to_string())])),
    ]);
    assert_eq!(Json::parse(doc.to_text().as_bytes()).unwrap(), doc);
}

#[test]
fn get_finds_the_first_member_of_that_name() {
    let doc = Json::Object(vec![
        member("a", Json::Number("1".to_string())),
        member("b", Json::Number("2".to_string())),
        member("a", Json::Number("3".to_string())),
    ]);
    assert_eq!(doc.get("a"), Some(&Json::Number("1".to_string())));
    assert_eq!(doc.get("b"), Some(&Json::Number("2".to_string())));
    assert_eq!(doc.get("c"), None);
    assert_eq!(Json::Array(vec![]).get("a"), None);
    assert!(doc.is_object());
    assert!(!Json::Null.is_object());
}

#[test]
fn parse_keeps_the_last_of_two_members_of_one_name() {
    let doc = Json::parse(br#"{"a":1,"a":2}"#).unwrap();
    assert_eq!(doc, Json::Object(vec![member("a", Json::Number("2".to_string()))]));
}

#[test]
fn text_escapes_each_control_character() {
    let text = |c: char| Json::Str(c.to_string()).to_text();
    assert_eq!(text('\u{0}'), "\"\\u0000\"");
    assert_eq!(text('\u{7}'), "\"\\u0007\"");
    assert_eq!(text('\u{8}'), "\"\\b\"");
    assert_eq!(text('\u{9}'), "\"\\t\"");
    assert_eq!(text('\u{a}'), "\"\\n\"");
    assert_eq!(text('\u{b}'), "\"\\u000b\"");
    assert_eq!(text('\u{c}'), "\"\\f\"");
    assert_eq!(text('\u{d}'), "\"\\r\"");
    assert_eq!(text('\u{e}'), "\"\\u000e\"");
    assert_eq!(text('\u{10}'), "\"\\u0010\"");
    assert_eq!(text('\u{1a}'), "\"\\u001a\"");
    assert_eq!(text('\u{1f}'), "\"\\u001f\"");
    assert_eq!(text(' '), "\" \"");
    assert_eq!(text('"'), "\"\\\"\"");
    assert_eq!(text('\\'), "\"\\\\\"");
    assert_eq!(text('/'), "\"/\"");
    assert_eq!(text('\u{7f}'), "\"\u{7f}\"");
    assert_eq!(text('\u{80}'), "\"\u{80}\"");
    assert_eq!(text('\u{2028}'), "\"\u{2028}\"");
    assert_eq!(text('\u{1f600}'), "\"\u{1f600}\"");
}

#[test]
fn text_escapes_only_what_must_be() {
    for code in 0x20u32..0x80 {
        let c = char::from_u32(code).unwrap();
        if c != '"' && c != '\\' {
            assert_eq!(Json::Str(c.to_string()).to_text(), format!("\"{}\"", c));
        }
    }
    for code in 0u32..0x20 {
        let c = char::from_u32(code).unwrap();
        let text = Json::Str(c.to_string()).to_text();
        assert!(text.starts_with("\"\\") && text.ends_with('"'));
        assert!(text.len() == 4 || text == format!("\"\\u{:04x}\"", code));
    }
    assert_eq!(Json::Str(String::new()).to_text(), "\"\"");
}
