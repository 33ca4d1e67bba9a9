use rusticnotion::json::{Codec, JsonValue};
use rusticnotion::models::dates::{CalendarDate, DateOrDateTime};
use rusticnotion::models::properties::FormulaResultValue;
use rusticnotion::models::values::{PropertyValue, RollupPropertyValue, RollupValue};

/// Turns JSON text into the library's tree.
fn tree(text: &str) -> JsonValue {
    fn convert(v: serde_json::Value) -> JsonValue {
        match v {
            serde_json::Value::Null => JsonValue::Null,
            serde_json::Value::Bool(b) => JsonValue::Bool(b),
            serde_json::Value::Number(n) => JsonValue::Number(n),
            serde_json::Value::String(s) => JsonValue::String(s),
            serde_json::Value::Array(items) => JsonValue::Array(items.into_iter().map(convert).collect()),
            serde_json::Value::Object(members) => {
                JsonValue::Object(members.into_iter().map(|(k, v)| (k, convert(v))).collect())
            }
        }
    }
    convert(serde_json::from_str(text).unwrap())
}

fn property(text: &str) -> PropertyValue {
    PropertyValue::decode(&tree(text)).unwrap()
}

#[test]
fn verify_date_parsing() {
    let date = CalendarDate::new(2021, 1, 2).unwrap();
    let result = DateOrDateTime::Date(date).encode();
    let parsed = DateOrDateTime::decode(&result).unwrap();
    println!("{:?}", parsed);
    assert_eq!(parsed, DateOrDateTime::Date(date));
}

#[test]
fn parse_date_property() {
    let _property = property(
        r#"{"id": "%3AAbC", "type": "date",
            "date": {"start": "2021-05-01", "end": null, "time_zone": null}}"#,
    );
}

#[test]
fn parse_null_select_property() {
    let _property = property(r#"{"id": "%3AAbC", "type": "select", "select": null}"#);
}

#[test]
fn parse_select_property() {
    let _property = property(
        r#"{"id": "%3AAbC", "type": "select",
            "select": {"id": "a1b2", "name": "Blocked", "color": "red"}}"#,
    );
}

#[test]
fn parse_text_property_with_link() {
    let _property = property(
        r#"{"id": "%3AAbC", "type": "rich_text", "rich_text": [{
            "type": "text",
            "text": {"content": "link", "link": {"url": "https://example.com/"}},
            "annotations": {"bold": false, "italic": false, "strikethrough": false,
                            "underline": false, "code": false, "color": "default"},
            "plain_text": "link",
            "href": "https://example.com/"}]}"#,
    );
}

#[test]
fn parse_rollup_property() {
    let property = property(
        r#"{"id": "%3AAbC", "type": "rollup", "rollup": {
            "type": "array", "function": "show_original",
            "array": [{"type": "rich_text", "rich_text": [{
                "type": "text", "text": {"content": "Hello", "link": null},
                "annotations": null, "plain_text": "Hello", "href": null}]}]}}"#,
    );

    assert!(matches!(
        property,
        PropertyValue::Rollup {
            rollup: Some(RollupValue::Array { .. }),
            ..
        }
    ));

    if let PropertyValue::Rollup {
        rollup: Some(RollupValue::Array { array }),
        ..
    } = property
    {
        assert!(matches!(array[0], RollupPropertyValue::Text { .. }))
    }
}

#[test]
fn parse_number_formula_prop() {
    let _property = property(
        r#"{"id": "%3AAbC", "type": "formula", "formula": {"type": "number", "number": 0}}"#,
    );
}

#[test]
fn parse_date_formula_prop() {
    let _property = property(
        r#"{"id": "%3AAbC", "type": "formula", "formula": {"type": "date",
            "date": {"start": "2021-06-28", "end": null}}}"#,
    );
}

#[test]
fn parse_number_formula() {
    let _value: FormulaResultValue = FormulaResultValue::decode(&tree(
        r#"{
    "type": "number",
    "number": 0
  }"#,
    ))
    .unwrap();
}

#[test]
fn parse_phone_number_values() {
    let values = tree(
        r#"[{"id": "a", "type": "phone_number", "phone_number": "+1 555 0100"},
            {"id": "b", "type": "phone_number", "phone_number": null}]"#,
    );
    let _property: Vec<PropertyValue> = match values {
        JsonValue::Array(items) => items.iter().map(|j| PropertyValue::decode(j).unwrap()).collect(),
        _ => panic!("not an array"),
    };
}
