use acme_client::json::{parse_json, JsonMember, JsonValue};

fn member(name: &str, value: JsonValue) -> JsonMember {
    JsonMember { name: name.to_string(), value }
}

#[test]
fn parse_json_reads_an_object_in_key_order() {
    let doc = parse_json(b"{\"b\": [1, \"x\", null], \"a\": true}");
    assert_eq!(
        doc,
        Some(JsonValue::Object(vec![
            member("a", JsonValue::Bool(true)),
            member(
                "b",
                JsonValue::List(vec![
                    JsonValue::Number("1".to_string()),
                    JsonValue::Text("x".to_string()),
                    JsonValue::Null,
                ]),
            ),
        ]))
    );
}

#[test]
fn parse_json_rejects_text_that_is_not_json() {
    assert_eq!(parse_json(b"<html>"), None);
    assert_eq!(parse_json(b""), None);
    assert_eq!(parse_json(b"{} trailing"), None);
    assert_eq!(parse_json(b"{\"a\":}"), None);
    assert_eq!(parse_json(&[0x22, 0xff, 0x22]), None);
}

#[test]
fn parse_json_reads_scalars_and_nesting() {
    assert_eq!(parse_json(b"null"), Some(JsonValue::Null));
    assert_eq!(parse_json(b" false "), Some(JsonValue::Bool(false)));
    assert_eq!(parse_json(b"-12"), Some(JsonValue::Number("-12".to_string())));
    assert_eq!(parse_json(b"1.5"), Some(JsonValue::Number("1.5".to_string())));
    assert_eq!(parse_json(b"\"a\\nb\""), Some(JsonValue::Text("a\nb".to_string())));
    assert_eq!(
        parse_json(b"[[], {\"k\": {}}]"),
        Some(JsonValue::List(vec![
            JsonValue::List(vec![]),
            JsonValue::Object(vec![member("k", JsonValue::Object(vec![]))]),
        ]))
    );
}

#[test]
fn get_finds_a_member_by_name() {
    let doc = JsonValue::Object(vec![
        member("a", JsonValue::Bool(true)),
        member("b", JsonValue::Null),
        member("a", JsonValue::Bool(false)),
    ]);
    assert_eq!(doc.get("a"), Some(&JsonValue::Bool(true)));
    assert_eq!(doc.get("b"), Some(&JsonValue::Null));
    assert_eq!(doc.get("c"), None);
    assert_eq!(doc.get("A"), None);
    assert_eq!(JsonValue::List(vec![]).get("a"), None);
    assert_eq!(JsonValue::Text("a".to_string()).get("a"), None);
}

#[test]
fn as_text_is_the_text_of_a_string_only() {
    assert_eq!(JsonValue::Text("x".to_string()).as_text(), Some("x"));
    assert_eq!(JsonValue::Number("1".to_string()).as_text(), None);
    assert_eq!(JsonValue::Null.as_text(), None);
}

#[test]
fn as_list_is_the_items_of_an_array_only() {
    let items = vec![JsonValue::Null, JsonValue::Bool(true)];
    assert_eq!(
        JsonValue::List(vec![JsonValue::Null, JsonValue::Bool(true)]).as_list(),
        Some(&items)
    );
    assert_eq!(JsonValue::Object(vec![]).as_list(), None);
}

#[test]
fn is_null_holds_of_null_only() {
    assert!(JsonValue::Null.is_null());
    assert!(!JsonValue::Bool(false).is_null());
    assert!(!JsonValue::Text(String::new()).is_null());
}
