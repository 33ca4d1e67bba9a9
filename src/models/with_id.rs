use vstd::prelude::*;

use crate::ids::PropertyId;
use crate::json::{str_field, string_field, Codec, DecodeError, Json, JsonValue};
use crate::models::expect::{kind_of, reports, FromPropertyValue, WrongPropertyTypeError};
use crate::models::schema::{dec_configuration, enc_configuration, PropertyConfigurationData};
use crate::models::values::{
    dec_property_value, enc_property_value, kind_name, lemma_property_kind_names,
    property_value_in_range, wire_tag, PropertyKind, PropertyValue, PropertyValueModel,
};

verus! {

/// A property value or schema together with the id of its property; on the
/// wire, `id` stands beside the members of the value.
#[derive(Debug, PartialEq, Eq)]
pub struct PropertyWithId<T> {
    pub id: PropertyId,
    pub value: T,
}

/// The schema of a property of a database, with the property's id.
pub type PropertyConfiguration = PropertyWithId<PropertyConfigurationData>;

impl<T> PropertyWithId<T> {
    /// The id of the property, whatever its kind.
    pub fn id(&self) -> (r: &PropertyId)
        ensures
            r == &self.id,
    {
        &self.id
    }
}

/// Something that holds a property value, with or without its id.
pub trait Property {
    spec fn property_value(&self) -> PropertyValue;

    fn value(&self) -> (r: &PropertyValue)
        ensures
            *r == self.property_value(),
    ;

    /// The name of the kind of the value, as diagnostics show it.
    fn property_type_name(&self) -> (r: String)
        ensures
            r@ == kind_name(kind_of(self.property_value())),
    ;
}

impl Property for PropertyValue {
    open spec fn property_value(&self) -> PropertyValue {
        *self
    }

    fn value(&self) -> (r: &PropertyValue) {
        self
    }

    fn property_type_name(&self) -> (r: String) {
        self.kind().name().to_owned()
    }
}

impl Property for PropertyWithId<PropertyValue> {
    open spec fn property_value(&self) -> PropertyValue {
        self.value
    }

    fn value(&self) -> (r: &PropertyValue) {
        &self.value
    }

    fn property_type_name(&self) -> (r: String) {
        self.value.kind().name().to_owned()
    }
}

/// The wire form of a value with its id: `id` first, then the members of
/// the value.
pub open spec fn with_id(id: Seq<char>, value: Json) -> Json {
    Json::Object(seq![("id"@, Json::Str(id))] + value->Object_0)
}

/// Beside the members of an object, `id` hides none of them.
pub proof fn lemma_with_id_fields(id: Seq<char>, value: Json)
    requires
        value is Object,
    ensures
        with_id(id, value).field("id"@) == Some(Json::Str(id)),
        forall|key: Seq<char>|
            key != "id"@ ==> #[trigger] with_id(id, value).field(key) == value.field(key),
{
    let ms = value->Object_0;
    let all = with_id(id, value)->Object_0;
    assert(all.drop_first() =~= ms);
}

/// No tag and not `type` is `id`.
proof fn lemma_tags_not_id(k: PropertyKind)
    ensures
        wire_tag(k) != "id"@,
        "type"@ != "id"@,
{
    reveal_strlit("id");
    reveal_strlit("type");
    assert("id"@.len() == 2 && "type"@.len() == 4);
    lemma_property_kind_names(k);
    assert(wire_tag(k).len() != 2) by {
        reveal_strlit("title");
        reveal_strlit("rich_text");
        reveal_strlit("number");
        reveal_strlit("select");
        reveal_strlit("status");
        reveal_strlit("multi_select");
        reveal_strlit("date");
        reveal_strlit("people");
        reveal_strlit("files");
        reveal_strlit("checkbox");
        reveal_strlit("url");
        reveal_strlit("email");
        reveal_strlit("phone_number");
        reveal_strlit("formula");
        reveal_strlit("relation");
        reveal_strlit("rollup");
        reveal_strlit("created_time");
        reveal_strlit("created_by");
        reveal_strlit("last_edited_time");
        reveal_strlit("last_edited_by");
        reveal_strlit("button");
        match k {
            PropertyKind::Title => assert("title"@.len() == 5),
            PropertyKind::Text => assert("rich_text"@.len() == 9),
            PropertyKind::Number => assert("number"@.len() == 6),
            PropertyKind::Select => assert("select"@.len() == 6),
            PropertyKind::Status => assert("status"@.len() == 6),
            PropertyKind::MultiSelect => assert("multi_select"@.len() == 12),
            PropertyKind::Date => assert("date"@.len() == 4),
            PropertyKind::People => assert("people"@.len() == 6),
            PropertyKind::Files => assert("files"@.len() == 5),
            PropertyKind::Checkbox => assert("checkbox"@.len() == 8),
            PropertyKind::Url => assert("url"@.len() == 3),
            PropertyKind::Email => assert("email"@.len() == 5),
            PropertyKind::PhoneNumber => assert("phone_number"@.len() == 12),
            PropertyKind::Formula => assert("formula"@.len() == 7),
            PropertyKind::Relation => assert("relation"@.len() == 8),
            PropertyKind::Rollup => assert("rollup"@.len() == 6),
            PropertyKind::CreatedTime => assert("created_time"@.len() == 12),
            PropertyKind::CreatedBy => assert("created_by"@.len() == 10),
            PropertyKind::LastEditedTime => assert("last_edited_time"@.len() == 16),
            PropertyKind::LastEditedBy => assert("last_edited_by"@.len() == 14),
            PropertyKind::Button => assert("button"@.len() == 6),
        }
    }
}

/// Prepends the member `id` to the members of an object.
fn prepend_id(id: &PropertyId, value: JsonValue) -> (r: JsonValue)
    requires
        value@ is Object,
    ensures
        r@ == with_id(id.deep_view(), value@),
{
    let ghost v = value@;
    match value {
        JsonValue::Object(mut ms) => {
            assert(v->Object_0 =~= crate::json::members_model(ms@));
            ms.insert(0, ("id".to_owned(), id.encode()));
            let r = crate::json::object(ms);
            assert(r@->Object_0 =~= with_id(id.deep_view(), v)->Object_0);
            r
        },
        _ => value,
    }
}

impl PropertyWithId<PropertyValue> {
    /// Reads the value as any type that can be read from a property value;
    /// the id plays no part.
    pub fn expect_value<T: FromPropertyValue>(self) -> (r: Result<T, WrongPropertyTypeError>)
        ensures
            T::accepted_kinds().contains(kind_of(self.value)) ==> r == Ok::<
                T,
                WrongPropertyTypeError,
            >(T::read_from(self.value)),
            !T::accepted_kinds().contains(kind_of(self.value)) ==> (r matches Err(e) && reports(
                e,
                T::accepted_kinds(),
                kind_of(self.value),
            )),
    {
        self.value.expect_value()
    }

    /// The wire form: `id` beside the members of the value. Reading it back
    /// gives the id and the value, when the value's dates and instants have
    /// four-digit years.
    pub fn encode(&self) -> (r: JsonValue)
        ensures
            r@ == with_id(self.id.deep_view(), enc_property_value(self.value.deep_view())),
            str_field(r@, "id"@) == Some(self.id.deep_view()),
            property_value_in_range(self.value.deep_view()) ==> dec_property_value(r@) == Some(
                self.value.deep_view(),
            ),
    {
        let v = self.value.encode();
        let ghost vj = v@;
        let r = prepend_id(&self.id, v);
        proof {
            let k = self.value.deep_view().kind();
            lemma_with_id_fields(self.id.deep_view(), vj);
            lemma_tags_not_id(k);
            lemma_property_kind_names(k);
        }
        r
    }

    /// Reads a value with its id; the value is read from the same object,
    /// which fails as [`PropertyValue::decode`] does, and a missing `id`
    /// fails with `MissingId`.
    pub fn decode(j: &JsonValue) -> (r: Result<PropertyWithId<PropertyValue>, DecodeError>)
        ensures
            r is Ok <==> str_field(j@, "id"@) is Some && dec_property_value(j@) is Some,
            r matches Ok(p) ==> Some(p.id.deep_view()) == str_field(j@, "id"@) && Some(
                p.value.deep_view(),
            ) == dec_property_value(j@),
            str_field(j@, "id"@) is None ==> r matches Err(DecodeError::MissingId),
    {
        let id = match string_field(j, "id") {
            Some(id) => id,
            None => {
                return Err(DecodeError::MissingId);
            },
        };
        let value = PropertyValue::decode(j)?;
        Ok(PropertyWithId { id: PropertyId(id), value })
    }
}

impl PropertyWithId<PropertyConfigurationData> {
    /// The wire form: `id` beside the members of the schema; reading it back
    /// gives the id and the schema.
    pub fn encode(&self) -> (r: JsonValue)
        ensures
            r@ == with_id(self.id.deep_view(), enc_configuration(self.value.deep_view())),
            str_field(r@, "id"@) == Some(self.id.deep_view()),
            dec_configuration(r@) == Some(self.value.deep_view()),
    {
        let v = self.value.encode();
        let ghost vj = v@;
        let r = prepend_id(&self.id, v);
        proof {
            let k = self.value.deep_view().kind();
            lemma_with_id_fields(self.id.deep_view(), vj);
            lemma_tags_not_id(k);
            lemma_property_kind_names(k);
        }
        r
    }

    /// Reads a schema with its id.
    pub fn decode(j: &JsonValue) -> (r: Result<PropertyWithId<PropertyConfigurationData>, DecodeError>)
        ensures
            r is Ok <==> str_field(j@, "id"@) is Some && dec_configuration(j@) is Some,
            r matches Ok(p) ==> Some(p.id.deep_view()) == str_field(j@, "id"@) && Some(
                p.value.deep_view(),
            ) == dec_configuration(j@),
            str_field(j@, "id"@) is None ==> r matches Err(DecodeError::MissingId),
    {
        let id = match string_field(j, "id") {
            Some(id) => id,
            None => {
                return Err(DecodeError::MissingId);
            },
        };
        let value = PropertyConfigurationData::decode(j)?;
        Ok(PropertyWithId { id: PropertyId(id), value })
    }
}

} // verus!
