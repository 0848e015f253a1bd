use imagind::JsonValue;

fn text_value(text: &str) -> JsonValue {
    JsonValue::Text(text.to_string())
}

#[test]
fn from_text_reads_each_kind_of_value() {
    assert_eq!(JsonValue::from_text("null"), Ok(JsonValue::Null));
    assert_eq!(JsonValue::from_text("true"), Ok(JsonValue::Bool(true)));
    assert_eq!(JsonValue::from_text("false"), Ok(JsonValue::Bool(false)));
    assert_eq!(JsonValue::from_text("\"tavern\""), Ok(text_value("tavern")));
    assert_eq!(
        JsonValue::from_text("3"),
        Ok(JsonValue::Number(serde_json::Number::from(3u64)))
    );
    assert_eq!(
        JsonValue::from_text("-7"),
        Ok(JsonValue::Number(serde_json::Number::from(-7i64)))
    );
    assert_eq!(JsonValue::from_text("[]"), Ok(JsonValue::Array(vec![])));
    assert_eq!(JsonValue::from_text("{}"), Ok(JsonValue::Object(vec![])));
}

#[test]
fn from_text_keeps_the_order_of_a_list() {
    assert_eq!(
        JsonValue::from_text("[\"b\", \"a\", [true, null], \"c\"]"),
        Ok(JsonValue::Array(vec![
            text_value("b"),
            text_value("a"),
            JsonValue::Array(vec![JsonValue::Bool(true), JsonValue::Null]),
            text_value("c"),
        ]))
    );
}

#[test]
fn from_text_reads_nested_records() {
    let value =
        JsonValue::from_text("{\"item\": {\"name\": \"lamp\", \"lit\": false}, \"count\": 2}")
            .expect("valid text");
    let item = value.field("item").expect("an item");
    assert_eq!(item.field("name"), Some(&text_value("lamp")));
    assert_eq!(item.field("lit"), Some(&JsonValue::Bool(false)));
    assert_eq!(
        value.field("count"),
        Some(&JsonValue::Number(serde_json::Number::from(2u64)))
    );
    assert_eq!(value.field("missing"), None);
}

#[test]
fn from_text_reports_text_that_is_no_value() {
    assert!(JsonValue::from_text("").is_err());
    assert!(JsonValue::from_text("{").is_err());
    assert!(JsonValue::from_text("[1, 2").is_err());
    assert!(JsonValue::from_text("not json").is_err());
    assert!(JsonValue::from_text("[] trailing").is_err());
    let detail = JsonValue::from_text("{").unwrap_err();
    assert!(!detail.is_empty());
}

#[test]
fn from_text_lets_the_last_of_two_equal_names_count() {
    let value = JsonValue::from_text("{\"a\": 1, \"a\": 2}").expect("valid text");
    assert_eq!(
        value.field("a"),
        Some(&JsonValue::Number(serde_json::Number::from(2u64)))
    );
}

#[test]
fn field_takes_the_last_entry_of_a_name() {
    let record = JsonValue::Object(vec![
        ("a".to_string(), text_value("first")),
        ("b".to_string(), text_value("other")),
        ("a".to_string(), text_value("last")),
    ]);
    assert_eq!(record.field("a"), Some(&text_value("last")));
    assert_eq!(record.field("b"), Some(&text_value("other")));
    assert_eq!(record.field("c"), None);
    assert_eq!(record.field("A"), None);
}

#[test]
fn field_of_what_is_no_record_is_nothing() {
    assert_eq!(JsonValue::Null.field("a"), None);
    assert_eq!(text_value("a").field("a"), None);
    assert_eq!(JsonValue::Array(vec![text_value("a")]).field("a"), None);
}

#[test]
fn as_text_is_the_text_of_a_text_only() {
    assert_eq!(text_value("hello").as_text(), Some("hello"));
    assert_eq!(text_value("").as_text(), Some(""));
    assert_eq!(JsonValue::Null.as_text(), None);
    assert_eq!(JsonValue::Bool(true).as_text(), None);
    assert_eq!(JsonValue::Array(vec![text_value("a")]).as_text(), None);
}

#[test]
fn as_texts_is_the_lines_of_a_list_of_texts_only() {
    assert_eq!(
        JsonValue::Array(vec![text_value("one"), text_value("two")]).as_texts(),
        Some(vec!["one".to_string(), "two".to_string()])
    );
    assert_eq!(JsonValue::Array(vec![]).as_texts(), Some(vec![]));
    assert_eq!(
        JsonValue::Array(vec![text_value("one"), JsonValue::Null]).as_texts(),
        None
    );
    assert_eq!(text_value("one").as_texts(), None);
    assert_eq!(JsonValue::Object(vec![]).as_texts(), None);
}

#[test]
fn deep_copy_and_clone_equal_the_value_copied() {
    let value = JsonValue::from_text(
        "{\"name\": \"lamp\", \"tags\": [\"old\", 3, 2.5, null], \"inner\": {\"lit\": true}}",
    )
    .expect("valid text");
    assert_eq!(value.deep_copy(), value);
    assert_eq!(value.clone(), value);
}

#[test]
fn from_texts_lists_the_texts_in_their_order() {
    let lines = vec!["b".to_string(), "".to_string(), "a".to_string()];
    let value = JsonValue::from_texts(&lines);
    assert_eq!(value, JsonValue::Array(vec![text_value("b"), text_value(""), text_value("a")]));
    assert_eq!(value.as_texts(), Some(lines));
    assert_eq!(JsonValue::from_texts(&vec![]), JsonValue::Array(vec![]));
}
