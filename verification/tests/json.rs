use craite::json::{field_of, item_of, lookup, push_field, push_item, text_of};
use craite::JsonValue;

fn text(s: &str) -> JsonValue {
    JsonValue::Str(s.to_string())
}

#[test]
fn as_str_reads_strings_only() {
    assert_eq!(text("x").as_str(), Some("x"));
    assert_eq!(JsonValue::Null.as_str(), None);
    assert_eq!(JsonValue::Int(3).as_str(), None);
    assert_eq!(JsonValue::Array(vec![text("x")]).as_str(), None);
}

#[test]
fn as_array_reads_arrays_only() {
    let items = vec![text("a"), JsonValue::Bool(true)];
    assert_eq!(JsonValue::Array(vec![text("a"), JsonValue::Bool(true)]).as_array(), Some(&items));
    assert_eq!(text("a").as_array(), None);
    assert_eq!(JsonValue::Object(Vec::new()).as_array(), None);
}

#[test]
fn member_finds_the_last_field_of_a_name() {
    let doc = JsonValue::Object(vec![
        ("a".to_string(), JsonValue::Int(1)),
        ("b".to_string(), JsonValue::Int(2)),
        ("a".to_string(), JsonValue::Int(3)),
    ]);
    assert_eq!(doc.member("a"), Some(&JsonValue::Int(3)));
    assert_eq!(doc.member("b"), Some(&JsonValue::Int(2)));
    assert_eq!(doc.member("c"), None);
    assert_eq!(text("a").member("a"), None);
}

#[test]
fn element_indexes_arrays() {
    let doc = JsonValue::Array(vec![text("zero"), text("one")]);
    assert_eq!(doc.element(0), Some(&text("zero")));
    assert_eq!(doc.element(1), Some(&text("one")));
    assert_eq!(doc.element(2), None);
    assert_eq!(JsonValue::Null.element(0), None);
}

#[test]
fn navigation_stops_at_the_first_miss() {
    let doc = JsonValue::Object(vec![(
        "choices".to_string(),
        JsonValue::Array(vec![JsonValue::Object(vec![("text".to_string(), text("hi"))])]),
    )]);
    let hit = text_of(field_of(item_of(field_of(Some(&doc), "choices"), 0), "text"));
    assert_eq!(hit, Some("hi"));
    assert_eq!(text_of(field_of(item_of(field_of(Some(&doc), "choices"), 1), "text")), None);
    assert_eq!(text_of(field_of(item_of(field_of(Some(&doc), "nope"), 0), "text")), None);
    assert_eq!(text_of(field_of(None, "x")), None);
    assert_eq!(text_of(item_of(None, 0)), None);
}

#[test]
fn builders_keep_the_order() {
    let mut fields = Vec::new();
    push_field(&mut fields, "k1", JsonValue::Int(1));
    push_field(&mut fields, "k2", JsonValue::Null);
    assert_eq!(lookup(&fields, "k1"), Some(&JsonValue::Int(1)));
    assert_eq!(
        JsonValue::object(fields),
        JsonValue::Object(vec![
            ("k1".to_string(), JsonValue::Int(1)),
            ("k2".to_string(), JsonValue::Null)
        ])
    );
    let mut items = Vec::new();
    push_item(&mut items, JsonValue::UInt(1));
    push_item(&mut items, JsonValue::Float(2.5f64.to_bits()));
    assert_eq!(
        JsonValue::array(items),
        JsonValue::Array(vec![JsonValue::UInt(1), JsonValue::Float(2.5f64.to_bits())])
    );
    assert_eq!(JsonValue::text("t"), text("t"));
    assert_eq!(
        JsonValue::text_array(&vec!["a".to_string(), "b".to_string()]),
        JsonValue::Array(vec![text("a"), text("b")])
    );
}

#[test]
fn a_clone_is_equal_to_the_document() {
    let doc = JsonValue::Object(vec![
        ("a".to_string(), JsonValue::Array(vec![text("x"), JsonValue::Null, JsonValue::Bool(true)])),
        ("b".to_string(), JsonValue::Object(vec![("c".to_string(), JsonValue::Int(-1))])),
        ("d".to_string(), JsonValue::Float(1.5f64.to_bits())),
        ("e".to_string(), JsonValue::UInt(u64::MAX)),
    ]);
    assert_eq!(doc.clone(), doc);
}
