use rusticnotion::ids::{PageId, PropertyId, UserId};
use rusticnotion::json::{Codec, DecodeError, JsonValue};
use rusticnotion::models::dates::{CalendarDate, DateOrDateTime, Timestamp};
use rusticnotion::models::expect::WrongPropertyTypeError;
use rusticnotion::models::properties::{Color, DateValue, SelectOptionId, SelectedValue};
use rusticnotion::models::schema::{PropertyConfigurationData, RollupFunction};
use rusticnotion::models::text::{RichText, RichTextCommon, Text};
use rusticnotion::models::users::{Person, User, UserCommon};
use rusticnotion::models::values::{PropertyKind, PropertyValue, RollupValue};
use rusticnotion::models::with_id::{Property, PropertyWithId};

fn convert(v: serde_json::Value) -> JsonValue {
    match v {
        serde_json::Value::Null => JsonValue::Null,
        serde_json::Value::Bool(b) => JsonValue::Bool(b),
        serde_json::Value::Number(n) => JsonValue::Number(n),
        serde_json::Value::String(s) => JsonValue::String(s),
        serde_json::Value::Array(items) => JsonValue::Array(items.into_iter().map(convert).collect()),
        serde_json::Value::Object(members) => {
            JsonValue::Object(members.into_iter().map(|(k, v)| (k, convert(v))).collect())
        }
    }
}

fn tree(text: &str) -> JsonValue {
    convert(serde_json::from_str(text).unwrap())
}

fn member<'a>(j: &'a JsonValue, key: &str) -> Option<&'a JsonValue> {
    match j {
        JsonValue::Object(ms) => ms.iter().find(|(k, _)| k == key).map(|(_, v)| v),
        _ => None,
    }
}

fn text_span(s: &str) -> RichText {
    RichText::Text {
        rich_text: RichTextCommon { plain_text: s.to_string(), href: None, annotations: None },
        text: Text { content: s.to_string(), link: None },
    }
}

fn error(expected: &[&str], actual: &str) -> WrongPropertyTypeError {
    WrongPropertyTypeError {
        expected: expected.iter().map(|s| s.to_string()).collect(),
        actual: actual.to_string(),
    }
}

#[test]
fn checkbox_scenario() {
    let j = tree(r#"{"type":"checkbox","checkbox":true}"#);
    let v = PropertyValue::decode(&j).unwrap();
    assert_eq!(v, PropertyValue::Checkbox { checkbox: true });
    assert_eq!(PropertyValue::decode(&j).unwrap().expect_checkbox(), Ok(true));
    assert_eq!(v.expect_number(), Err(error(&["Number"], "Checkbox")));
}

#[test]
fn date_with_only_a_start_day() {
    let v = PropertyValue::decode(&tree(r#"{"type":"date","date":{"start":"2021-05-01"}}"#)).unwrap();
    let date = v.expect_date().unwrap().unwrap();
    assert_eq!(date.start, DateOrDateTime::Date(CalendarDate::new(2021, 5, 1).unwrap()));
    assert_eq!(date.end, None);
    assert_eq!(date.time_zone, None);
}

#[test]
fn rich_text_keeps_its_wire_tag() {
    let j = tree(r#"{"type":"rich_text","rich_text":[]}"#);
    let v = PropertyValue::decode(&j).unwrap();
    assert_eq!(v.kind(), PropertyKind::Text);
    assert_eq!(v.property_type_name(), "Text");
    let back = v.encode();
    assert!(member(&back, "rich_text").is_some());
    assert!(member(&back, "text").is_none());
    assert_eq!(member(&back, "type"), Some(&JsonValue::String("rich_text".to_string())));
}

#[test]
fn rollup_array_of_text() {
    let j = tree(
        r#"{"type":"rollup","rollup":{"type":"array","array":[
            {"type":"rich_text","rich_text":[{"type":"text","text":{"content":"a"},"plain_text":"a"}]}]}}"#,
    );
    match PropertyValue::decode(&j).unwrap().expect_rollup().unwrap() {
        Some(RollupValue::Array { array }) => match &array[0] {
            rusticnotion::models::values::RollupPropertyValue::Text { rich_text } => {
                assert_eq!(rich_text[0].plain_text(), "a")
            }
            _ => panic!("not text"),
        },
        _ => panic!("not an array"),
    }
}

#[test]
fn selected_value_omits_absent_parts() {
    let s = SelectedValue { id: None, name: None, color: Some(Color::Blue) };
    let j = s.encode();
    assert_eq!(j, tree(r#"{"color":"blue"}"#));
    let back = SelectedValue::decode(&tree(r#"{"color":"blue"}"#)).unwrap();
    assert_eq!(back, s);
    let empty = SelectedValue::decode(&tree("{}")).unwrap();
    assert_eq!(empty, SelectedValue { id: None, name: None, color: None });
    let full = SelectedValue {
        id: Some(SelectOptionId("x1".to_string())),
        name: Some("Done".to_string()),
        color: None,
    };
    assert_eq!(full.encode(), tree(r#"{"id":"x1","name":"Done"}"#));
}

#[test]
fn round_trip_of_several_values() {
    let user = User::Person {
        common: UserCommon {
            id: UserId("u1".to_string()),
            name: Some("Ada".to_string()),
            avatar_url: None,
        },
        person: Person { email: Some("ada@example.com".to_string()) },
    };
    let at = Timestamp::new(CalendarDate::new(2022, 3, 4).unwrap(), 3600, 500_000_000).unwrap();
    let values = vec![
        PropertyValue::Title { title: vec![text_span("T")] },
        PropertyValue::Number { number: Some(serde_json::Number::from(42)) },
        PropertyValue::Number { number: None },
        PropertyValue::Url { url: Some("https://example.com".to_string()) },
        PropertyValue::PhoneNumber { phone_number: None },
        PropertyValue::CreatedBy { created_by: user },
        PropertyValue::CreatedTime { created_time: at },
        PropertyValue::Date {
            date: Some(DateValue {
                start: DateOrDateTime::DateTime(at),
                end: Some(DateOrDateTime::Date(CalendarDate::new(2022, 3, 5).unwrap())),
                time_zone: Some("Europe/Berlin".to_string()),
            }),
        },
        PropertyValue::Button,
    ];
    for v in values {
        let back = PropertyValue::decode(&v.encode()).unwrap();
        assert_eq!(back, v);
    }
}

#[test]
fn wire_tags_are_distinct() {
    let kinds = [
        PropertyKind::Title, PropertyKind::Text, PropertyKind::Number, PropertyKind::Select,
        PropertyKind::Status, PropertyKind::MultiSelect, PropertyKind::Date, PropertyKind::People,
        PropertyKind::Files, PropertyKind::Checkbox, PropertyKind::Url, PropertyKind::Email,
        PropertyKind::PhoneNumber, PropertyKind::Formula, PropertyKind::Relation,
        PropertyKind::Rollup, PropertyKind::CreatedTime, PropertyKind::CreatedBy,
        PropertyKind::LastEditedTime, PropertyKind::LastEditedBy, PropertyKind::Button,
    ];
    for a in kinds.iter() {
        for b in kinds.iter() {
            assert_eq!(a == b, a.wire_name() == b.wire_name());
        }
    }
    assert_eq!(PropertyKind::Text.wire_name(), "rich_text");
    assert_eq!(PropertyKind::MultiSelect.wire_name(), "multi_select");
}

#[test]
fn narrowing_accepts_title_and_text() {
    let title = PropertyValue::Title { title: vec![text_span("a")] };
    let text = PropertyValue::Text { rich_text: vec![text_span("b")] };
    let number = PropertyValue::Number { number: None };
    assert_eq!(title.expect_value::<Vec<RichText>>(), Ok(vec![text_span("a")]));
    assert_eq!(text.expect_value::<Vec<RichText>>(), Ok(vec![text_span("b")]));
    assert_eq!(number.expect_value::<Vec<RichText>>(), Err(error(&["Title", "Text"], "Number")));
}

#[test]
fn expect_title_refuses_text() {
    let text = PropertyValue::Text { rich_text: vec![text_span("b")] };
    assert_eq!(text.expect_title(), Err(error(&["Title"], "Text")));
    let title = PropertyValue::Title { title: vec![] };
    assert_eq!(title.expect_title(), Ok(vec![]));
}

#[test]
fn optional_string_accepts_three_kinds() {
    let email = PropertyValue::Email { email: Some("a@b.c".to_string()) };
    assert_eq!(email.expect_value::<Option<String>>(), Ok(Some("a@b.c".to_string())));
    let check = PropertyValue::Checkbox { checkbox: false };
    assert_eq!(
        check.expect_value::<Option<String>>(),
        Err(error(&["Url", "Email", "PhoneNumber"], "Checkbox"))
    );
    let people = PropertyValue::People { people: vec![] };
    assert_eq!(people.expect_people(), Ok(Some(vec![])));
    assert_eq!(PropertyValue::Button.expect_button(), Ok(()));
    assert_eq!(PropertyValue::Button.expect_url(), Err(error(&["Url"], "Button")));
}

#[test]
fn decode_errors() {
    assert_eq!(PropertyValue::decode(&tree(r#"{"checkbox":true}"#)), Err(DecodeError::MissingTag));
    assert_eq!(
        PropertyValue::decode(&tree(r#"{"type":"text","text":[]}"#)),
        Err(DecodeError::UnknownTag { tag: "text".to_string() })
    );
    assert_eq!(
        PropertyValue::decode(&tree(r#"{"type":"checkbox","checkbox":"yes"}"#)),
        Err(DecodeError::Malformed { tag: "checkbox".to_string() })
    );
    assert_eq!(
        PropertyWithId::<PropertyValue>::decode(&tree(r#"{"type":"button"}"#)),
        Err(DecodeError::MissingId)
    );
}

#[test]
fn property_with_id_carries_its_id() {
    let j = tree(r#"{"id":"abc","type":"url","url":null}"#);
    let p = PropertyWithId::<PropertyValue>::decode(&j).unwrap();
    assert_eq!(p.id(), &PropertyId("abc".to_string()));
    assert_eq!(p.property_type_name(), "Url");
    assert_eq!(p.value(), &PropertyValue::Url { url: None });
    assert_eq!(p.encode(), j);
}

#[test]
fn calendar_dates_are_checked() {
    assert!(CalendarDate::new(2021, 2, 29).is_none());
    assert!(CalendarDate::new(2024, 2, 29).is_some());
    assert!(CalendarDate::new(2021, 13, 1).is_none());
    assert!(CalendarDate::new(1900, 2, 29).is_none());
    assert!(CalendarDate::new(2000, 2, 29).is_some());
    let d = CalendarDate::new(2021, 4, 30).unwrap();
    assert_eq!((d.year(), d.month(), d.day()), (2021, 4, 30));
}

#[test]
fn instants_are_written_in_rfc3339() {
    let at = Timestamp::new(CalendarDate::new(2021, 5, 1).unwrap(), 12 * 3600, 0).unwrap();
    assert_eq!(at.encode(), JsonValue::String("2021-05-01T12:00:00Z".to_string()));
    let shifted = Timestamp::decode(&JsonValue::String("2021-05-01T14:00:00+02:00".to_string()));
    assert_eq!(shifted, Some(at));
    let date = DateOrDateTime::Date(CalendarDate::new(2021, 1, 2).unwrap());
    assert_eq!(date.encode(), JsonValue::String("2021-01-02".to_string()));
    assert_eq!(
        DateOrDateTime::decode(&JsonValue::String("2021-05-01T12:00:00Z".to_string())),
        Some(DateOrDateTime::DateTime(at))
    );
    assert!(DateOrDateTime::decode(&JsonValue::String("yesterday".to_string())).is_none());
    assert!(Timestamp::new(CalendarDate::new(2021, 5, 1).unwrap(), 86_400, 0).is_none());
}

#[test]
fn users_share_their_common_part() {
    let j = tree(r#"{"object":"user","id":"u2","name":null,"avatar_url":null}"#);
    let u = User::decode(&j).unwrap();
    assert_eq!(u.to_common().id, UserId("u2".to_string()));
    assert_eq!(u, User::User {
        common: UserCommon { id: UserId("u2".to_string()), name: None, avatar_url: None },
        person: None,
    });
    assert!(User::decode(&tree(r#"{"object":"robot","id":"u3"}"#)).is_none());
}

#[test]
fn configuration_reads_select_options() {
    let j = tree(
        r#"{"id":"prop1","name":"Stage","type":"select","select":{"options":[
            {"id":"o1","name":"Todo","color":"gray"},{"id":"o2","name":"Done","color":"green"}]}}"#,
    );
    let c = PropertyWithId::<PropertyConfigurationData>::decode(&j).unwrap();
    assert_eq!(c.id(), &PropertyId("prop1".to_string()));
    match &c.value {
        PropertyConfigurationData::Select { select } => {
            assert_eq!(select.options.len(), 2);
            assert_eq!(select.options[1].color, Color::Green);
        }
        _ => panic!("not a select"),
    }
    let back = PropertyWithId::<PropertyConfigurationData>::decode(&c.encode()).unwrap();
    assert_eq!(back, c);
    assert_eq!(
        PropertyConfigurationData::decode(&tree(r#"{"type":"mystery"}"#)),
        Err(DecodeError::UnknownTag { tag: "mystery".to_string() })
    );
    let rollup = PropertyConfigurationData::decode(&tree(
        r#"{"type":"rollup","rollup":{"relation_property_name":"R","relation_property_id":"r1",
            "rollup_property_name":"N","rollup_property_id":"n1","function":"percent_per_group"}}"#,
    ))
    .unwrap();
    match rollup {
        PropertyConfigurationData::Rollup { rollup } => {
            assert_eq!(rollup.function, RollupFunction::PercentPerGroup)
        }
        _ => panic!("not a rollup"),
    }
}

#[test]
fn relation_values_read_page_ids() {
    let v = PropertyValue::decode(&tree(r#"{"type":"relation","relation":[{"id":"pg1"}]}"#)).unwrap();
    let rel = v.expect_relation().unwrap().unwrap();
    assert_eq!(rel[0].id, PageId("pg1".to_string()));
}

#[test]
fn each_expect_reads_its_own_kind() {
    let v = PropertyValue::decode(&tree(r#"{"type":"status","status":{"name":"Open"}}"#)).unwrap();
    assert_eq!(
        v.expect_status(),
        Ok(Some(SelectedValue { id: None, name: Some("Open".to_string()), color: None }))
    );
    let v = PropertyValue::decode(&tree(r#"{"type":"status","status":null}"#)).unwrap();
    assert_eq!(v.expect_select(), Err(error(&["Select"], "Status")));
    let v = PropertyValue::decode(&tree(r#"{"type":"multi_select","multi_select":[{"name":"x"}]}"#))
        .unwrap();
    assert_eq!(v.expect_multi_select().unwrap().unwrap().len(), 1);
    let v = PropertyValue::decode(&tree(
        r#"{"type":"files","files":[{"type":"external","name":"n","external":{"url":"u"}}]}"#,
    ))
    .unwrap();
    assert_eq!(v.expect_files().unwrap().unwrap().len(), 1);
    let v = PropertyValue::decode(&tree(
        r#"{"type":"formula","formula":{"type":"string","string":"s"}}"#,
    ))
    .unwrap();
    assert_eq!(
        v.expect_formula(),
        Ok(rusticnotion::models::properties::FormulaResultValue::String {
            string: Some("s".to_string())
        })
    );
    let v = PropertyValue::decode(&tree(r#"{"type":"rich_text","rich_text":[]}"#)).unwrap();
    assert_eq!(v.expect_text(), Ok(vec![]));
    let v = PropertyValue::decode(&tree(r#"{"type":"email","email":"a@b"}"#)).unwrap();
    assert_eq!(v.expect_email(), Ok(Some("a@b".to_string())));
    let v = PropertyValue::decode(&tree(r#"{"type":"phone_number","phone_number":"1"}"#)).unwrap();
    assert_eq!(v.expect_phone_number(), Ok(Some("1".to_string())));
    let user = r#"{"object":"bot","id":"b1","name":"B","avatar_url":null,"bot":{"email":null}}"#;
    let v = PropertyValue::decode(&tree(&format!(r#"{{"type":"last_edited_by","last_edited_by":{}}}"#, user)))
        .unwrap();
    let u = v.expect_last_edited_by().unwrap();
    assert_eq!(u.to_common().name, Some("B".to_string()));
    let v = PropertyValue::decode(&tree(&format!(r#"{{"type":"created_by","created_by":{}}}"#, user)))
        .unwrap();
    assert_eq!(v.expect_created_by(), Ok(u));
    let when = r#""2020-02-29T23:59:59.250Z""#;
    let v = PropertyValue::decode(&tree(&format!(r#"{{"type":"created_time","created_time":{}}}"#, when)))
        .unwrap();
    let t = v.expect_created_time().unwrap();
    assert_eq!((t.seconds_from_midnight(), t.nanosecond()), (86_399, 250_000_000));
    let v = PropertyValue::decode(&tree(&format!(
        r#"{{"type":"last_edited_time","last_edited_time":{}}}"#,
        when
    )))
    .unwrap();
    assert_eq!(v.expect_last_edited_time(), Ok(t));
}

#[test]
fn property_with_id_reads_its_value() {
    let p = PropertyWithId::<PropertyValue>::decode(&tree(r#"{"id":"x","type":"checkbox","checkbox":false}"#))
        .unwrap();
    assert_eq!(p.expect_value::<bool>(), Ok(false));
    let p = PropertyWithId::<PropertyValue>::decode(&tree(r#"{"id":"x","type":"checkbox","checkbox":false}"#))
        .unwrap();
    assert_eq!(p.expect_value::<Option<String>>(), Err(error(&["Url", "Email", "PhoneNumber"], "Checkbox")));
}

#[test]
fn values_with_ids_read_back() {
    let p = PropertyWithId {
        id: PropertyId("q".to_string()),
        value: PropertyValue::MultiSelect {
            multi_select: Some(vec![SelectedValue {
                id: None,
                name: Some("tag".to_string()),
                color: Some(Color::Pink),
            }]),
        },
    };
    let j = p.encode();
    assert_eq!(member(&j, "id"), Some(&JsonValue::String("q".to_string())));
    assert_eq!(PropertyWithId::<PropertyValue>::decode(&j).unwrap(), p);
}
