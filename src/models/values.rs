use vstd::prelude::*;

use crate::json::{
    add_member, all_in_range, bool_field, boolean_field, codec_field, decode_field,
    decode_list_field, decode_opt_field, decode_opt_list_field, enc_list, enc_opt, enc_opt_list,
    encode_list, encode_opt, encode_opt_list, lemma_field_decreases, lemma_member_at,
    lemma_tagged, list_field, new_members, num_or_null,
    number_or_null, object, opt_all_in_range, opt_codec_field, opt_in_range, opt_list_field,
    opt_number_field, opt_str_field, optional_number_field, optional_string_field, read_str, str_field,
    str_or_null, string_field, string_or_null, string_value, tagged, tagged_object, text_is, Codec,
    DecodeError, Json, JsonValue, RoundTrip,
};
use crate::models::dates::Timestamp;
use crate::models::properties::{
    DateValue, DateValueModel, FileReference, FileReferenceModel, FormulaResultModel,
    FormulaResultValue, RelationValue, SelectedValue, SelectedValueModel,
};
use crate::models::text::{RichText, RichTextModel};
use crate::models::users::{User, UserModel};

verus! {

/// The kinds of property; each has a tag on the wire, which names the
/// member that holds a value of that kind.
#[derive(Clone, Copy, Debug, PartialEq, Eq, Hash)]
pub enum PropertyKind {
    Title,
    Text,
    Number,
    Select,
    Status,
    MultiSelect,
    Date,
    People,
    Files,
    Checkbox,
    Url,
    Email,
    PhoneNumber,
    Formula,
    Relation,
    Rollup,
    CreatedTime,
    CreatedBy,
    LastEditedTime,
    LastEditedBy,
    Button,
}

impl DeepView for PropertyKind {
    type V = PropertyKind;

    open spec fn deep_view(&self) -> PropertyKind {
        *self
    }
}

/// The wire name of each PropertyKind.
pub open spec fn wire_tag(x: PropertyKind) -> Seq<char> {
    match x {
        PropertyKind::Title => "title"@,
        PropertyKind::Text => "rich_text"@,
        PropertyKind::Number => "number"@,
        PropertyKind::Select => "select"@,
        PropertyKind::Status => "status"@,
        PropertyKind::MultiSelect => "multi_select"@,
        PropertyKind::Date => "date"@,
        PropertyKind::People => "people"@,
        PropertyKind::Files => "files"@,
        PropertyKind::Checkbox => "checkbox"@,
        PropertyKind::Url => "url"@,
        PropertyKind::Email => "email"@,
        PropertyKind::PhoneNumber => "phone_number"@,
        PropertyKind::Formula => "formula"@,
        PropertyKind::Relation => "relation"@,
        PropertyKind::Rollup => "rollup"@,
        PropertyKind::CreatedTime => "created_time"@,
        PropertyKind::CreatedBy => "created_by"@,
        PropertyKind::LastEditedTime => "last_edited_time"@,
        PropertyKind::LastEditedBy => "last_edited_by"@,
        PropertyKind::Button => "button"@,
    }
}

pub open spec fn kind_of_tag(s: Seq<char>) -> Option<PropertyKind> {
    if s == "title"@ {
        Some(PropertyKind::Title)
    } else if s == "rich_text"@ {
        Some(PropertyKind::Text)
    } else if s == "number"@ {
        Some(PropertyKind::Number)
    } else if s == "select"@ {
        Some(PropertyKind::Select)
    } else if s == "status"@ {
        Some(PropertyKind::Status)
    } else if s == "multi_select"@ {
        Some(PropertyKind::MultiSelect)
    } else if s == "date"@ {
        Some(PropertyKind::Date)
    } else if s == "people"@ {
        Some(PropertyKind::People)
    } else if s == "files"@ {
        Some(PropertyKind::Files)
    } else if s == "checkbox"@ {
        Some(PropertyKind::Checkbox)
    } else if s == "url"@ {
        Some(PropertyKind::Url)
    } else if s == "email"@ {
        Some(PropertyKind::Email)
    } else if s == "phone_number"@ {
        Some(PropertyKind::PhoneNumber)
    } else if s == "formula"@ {
        Some(PropertyKind::Formula)
    } else if s == "relation"@ {
        Some(PropertyKind::Relation)
    } else if s == "rollup"@ {
        Some(PropertyKind::Rollup)
    } else if s == "created_time"@ {
        Some(PropertyKind::CreatedTime)
    } else if s == "created_by"@ {
        Some(PropertyKind::CreatedBy)
    } else if s == "last_edited_time"@ {
        Some(PropertyKind::LastEditedTime)
    } else if s == "last_edited_by"@ {
        Some(PropertyKind::LastEditedBy)
    } else if s == "button"@ {
        Some(PropertyKind::Button)
    } else {
        None
    }
}

/// Each PropertyKind reads back from its wire name.
pub proof fn lemma_property_kind_names(x: PropertyKind)
    ensures
        kind_of_tag(wire_tag(x)) == Some(x),
{
    reveal_strlit("title");
    reveal_strlit("rich_text");
    reveal_strlit("number");
    reveal_strlit("select");
    reveal_strlit("status");
    reveal_strlit("multi_select");
    reveal_strlit("date");
    reveal_strlit("people");
    reveal_strlit("files");
    reveal_strlit("checkbox");
    reveal_strlit("url");
    reveal_strlit("email");
    reveal_strlit("phone_number");
    reveal_strlit("formula");
    reveal_strlit("relation");
    reveal_strlit("rollup");
    reveal_strlit("created_time");
    reveal_strlit("created_by");
    reveal_strlit("last_edited_time");
    reveal_strlit("last_edited_by");
    reveal_strlit("button");
    assert("title"@.len() == 5 && "rich_text"@.len() == 9 && "number"@.len() == 6);
    assert("select"@.len() == 6 && "status"@.len() == 6 && "multi_select"@.len() == 12);
    assert("date"@.len() == 4 && "people"@.len() == 6 && "files"@.len() == 5);
    assert("checkbox"@.len() == 8 && "url"@.len() == 3 && "email"@.len() == 5);
    assert("phone_number"@.len() == 12 && "formula"@.len() == 7 && "relation"@.len() == 8);
    assert("rollup"@.len() == 6 && "created_time"@.len() == 12 && "created_by"@.len() == 10);
    assert("last_edited_time"@.len() == 16 && "last_edited_by"@.len() == 14 && "button"@.len() == 6);
    assert("button"@[0] == 'b' && "checkbox"@[0] == 'c' && "created_time"@[0] == 'c');
    assert("email"@[0] == 'e' && "files"@[0] == 'f' && "multi_select"@[0] == 'm');
    assert("number"@[0] == 'n' && "people"@[0] == 'p' && "phone_number"@[0] == 'p');
    assert("relation"@[0] == 'r' && "rollup"@[0] == 'r' && "select"@[0] == 's');
    assert("select"@[1] == 'e' && "status"@[0] == 's' && "status"@[1] == 't');
    assert("title"@[0] == 't');
}

impl PropertyKind {
    /// The wire name.
    pub fn wire_name(&self) -> (r: &'static str)
        ensures
            r@ == wire_tag(*self),
    {
        match self {
            PropertyKind::Title => "title",
            PropertyKind::Text => "rich_text",
            PropertyKind::Number => "number",
            PropertyKind::Select => "select",
            PropertyKind::Status => "status",
            PropertyKind::MultiSelect => "multi_select",
            PropertyKind::Date => "date",
            PropertyKind::People => "people",
            PropertyKind::Files => "files",
            PropertyKind::Checkbox => "checkbox",
            PropertyKind::Url => "url",
            PropertyKind::Email => "email",
            PropertyKind::PhoneNumber => "phone_number",
            PropertyKind::Formula => "formula",
            PropertyKind::Relation => "relation",
            PropertyKind::Rollup => "rollup",
            PropertyKind::CreatedTime => "created_time",
            PropertyKind::CreatedBy => "created_by",
            PropertyKind::LastEditedTime => "last_edited_time",
            PropertyKind::LastEditedBy => "last_edited_by",
            PropertyKind::Button => "button",
        }
    }

    /// The variant with the given wire name.
    pub fn from_wire_name(s: &String) -> (r: Option<PropertyKind>)
        ensures
            r == kind_of_tag(s@),
    {
        if text_is(s, "title") {
            Some(PropertyKind::Title)
        } else if text_is(s, "rich_text") {
            Some(PropertyKind::Text)
        } else if text_is(s, "number") {
            Some(PropertyKind::Number)
        } else if text_is(s, "select") {
            Some(PropertyKind::Select)
        } else if text_is(s, "status") {
            Some(PropertyKind::Status)
        } else if text_is(s, "multi_select") {
            Some(PropertyKind::MultiSelect)
        } else if text_is(s, "date") {
            Some(PropertyKind::Date)
        } else if text_is(s, "people") {
            Some(PropertyKind::People)
        } else if text_is(s, "files") {
            Some(PropertyKind::Files)
        } else if text_is(s, "checkbox") {
            Some(PropertyKind::Checkbox)
        } else if text_is(s, "url") {
            Some(PropertyKind::Url)
        } else if text_is(s, "email") {
            Some(PropertyKind::Email)
        } else if text_is(s, "phone_number") {
            Some(PropertyKind::PhoneNumber)
        } else if text_is(s, "formula") {
            Some(PropertyKind::Formula)
        } else if text_is(s, "relation") {
            Some(PropertyKind::Relation)
        } else if text_is(s, "rollup") {
            Some(PropertyKind::Rollup)
        } else if text_is(s, "created_time") {
            Some(PropertyKind::CreatedTime)
        } else if text_is(s, "created_by") {
            Some(PropertyKind::CreatedBy)
        } else if text_is(s, "last_edited_time") {
            Some(PropertyKind::LastEditedTime)
        } else if text_is(s, "last_edited_by") {
            Some(PropertyKind::LastEditedBy)
        } else if text_is(s, "button") {
            Some(PropertyKind::Button)
        } else {
            None
        }
    }
}

/// The wire form is the wire name as a JSON string.
impl Codec for PropertyKind {
    open spec fn enc_spec(m: PropertyKind) -> Json {
        Json::Str(wire_tag(m))
    }

    open spec fn dec_spec(j: Json) -> Option<PropertyKind> {
        match read_str(j) {
            Some(s) => kind_of_tag(s),
            None => None,
        }
    }

    open spec fn in_range(m: PropertyKind) -> bool {
        true
    }

    fn encode(&self) -> (r: JsonValue) {
        proof {
            lemma_property_kind_names(*self);
        }
        JsonValue::String(self.wire_name().to_owned())
    }

    fn decode(j: &JsonValue) -> (r: Option<PropertyKind>) {
        match j {
            JsonValue::String(s) => PropertyKind::from_wire_name(s),
            _ => None,
        }
    }
}

impl RoundTrip for PropertyKind {
    proof fn lemma_round_trip(m: PropertyKind) {
        lemma_property_kind_names(m);
    }
}

/// The name of each kind, as diagnostics show it.
pub open spec fn kind_name(k: PropertyKind) -> Seq<char> {
    match k {
        PropertyKind::Title => "Title"@,
        PropertyKind::Text => "Text"@,
        PropertyKind::Number => "Number"@,
        PropertyKind::Select => "Select"@,
        PropertyKind::Status => "Status"@,
        PropertyKind::MultiSelect => "MultiSelect"@,
        PropertyKind::Date => "Date"@,
        PropertyKind::People => "People"@,
        PropertyKind::Files => "Files"@,
        PropertyKind::Checkbox => "Checkbox"@,
        PropertyKind::Url => "Url"@,
        PropertyKind::Email => "Email"@,
        PropertyKind::PhoneNumber => "PhoneNumber"@,
        PropertyKind::Formula => "Formula"@,
        PropertyKind::Relation => "Relation"@,
        PropertyKind::Rollup => "Rollup"@,
        PropertyKind::CreatedTime => "CreatedTime"@,
        PropertyKind::CreatedBy => "CreatedBy"@,
        PropertyKind::LastEditedTime => "LastEditedTime"@,
        PropertyKind::LastEditedBy => "LastEditedBy"@,
        PropertyKind::Button => "Button"@,
    }
}

impl PropertyKind {
    /// The name of the kind, as diagnostics show it.
    pub fn name(&self) -> (r: &'static str)
        ensures
            r@ == kind_name(*self),
    {
        match self {
            PropertyKind::Title => "Title",
            PropertyKind::Text => "Text",
            PropertyKind::Number => "Number",
            PropertyKind::Select => "Select",
            PropertyKind::Status => "Status",
            PropertyKind::MultiSelect => "MultiSelect",
            PropertyKind::Date => "Date",
            PropertyKind::People => "People",
            PropertyKind::Files => "Files",
            PropertyKind::Checkbox => "Checkbox",
            PropertyKind::Url => "Url",
            PropertyKind::Email => "Email",
            PropertyKind::PhoneNumber => "PhoneNumber",
            PropertyKind::Formula => "Formula",
            PropertyKind::Relation => "Relation",
            PropertyKind::Rollup => "Rollup",
            PropertyKind::CreatedTime => "CreatedTime",
            PropertyKind::CreatedBy => "CreatedBy",
            PropertyKind::LastEditedTime => "LastEditedTime",
            PropertyKind::LastEditedBy => "LastEditedBy",
            PropertyKind::Button => "Button",
        }
    }
}

/// Distinct kinds have distinct wire tags.
pub proof fn lemma_wire_tags_distinct(a: PropertyKind, b: PropertyKind)
    ensures
        a != b ==> wire_tag(a) != wire_tag(b),
{
    lemma_property_kind_names(a);
    lemma_property_kind_names(b);
}

/// Distinct kinds have distinct names.
pub proof fn lemma_kind_names_distinct(a: PropertyKind, b: PropertyKind)
    ensures
        a != b ==> kind_name(a) != kind_name(b),
{
    reveal_strlit("Title");
    reveal_strlit("Text");
    reveal_strlit("Number");
    reveal_strlit("Select");
    reveal_strlit("Status");
    reveal_strlit("MultiSelect");
    reveal_strlit("Date");
    reveal_strlit("People");
    reveal_strlit("Files");
    reveal_strlit("Checkbox");
    reveal_strlit("Url");
    reveal_strlit("Email");
    reveal_strlit("PhoneNumber");
    reveal_strlit("Formula");
    reveal_strlit("Relation");
    reveal_strlit("Rollup");
    reveal_strlit("CreatedTime");
    reveal_strlit("CreatedBy");
    reveal_strlit("LastEditedTime");
    reveal_strlit("LastEditedBy");
    reveal_strlit("Button");
    assert("Title"@.len() == 5 && "Text"@.len() == 4 && "Number"@.len() == 6);
    assert("Select"@.len() == 6 && "Status"@.len() == 6 && "MultiSelect"@.len() == 11);
    assert("Date"@.len() == 4 && "People"@.len() == 6 && "Files"@.len() == 5);
    assert("Checkbox"@.len() == 8 && "Url"@.len() == 3 && "Email"@.len() == 5);
    assert("PhoneNumber"@.len() == 11 && "Formula"@.len() == 7 && "Relation"@.len() == 8);
    assert("Rollup"@.len() == 6 && "CreatedTime"@.len() == 11 && "CreatedBy"@.len() == 9);
    assert("LastEditedTime"@.len() == 14 && "LastEditedBy"@.len() == 12 && "Button"@.len() == 6);
    assert("Button"@[0] == 'B' && "Checkbox"@[0] == 'C' && "CreatedTime"@[0] == 'C');
    assert("Date"@[0] == 'D' && "Email"@[0] == 'E' && "Files"@[0] == 'F');
    assert("MultiSelect"@[0] == 'M' && "Number"@[0] == 'N' && "People"@[0] == 'P');
    assert("PhoneNumber"@[0] == 'P' && "Relation"@[0] == 'R' && "Rollup"@[0] == 'R');
    assert("Select"@[0] == 'S' && "Select"@[1] == 'e' && "Status"@[0] == 'S');
    assert("Status"@[1] == 't' && "Text"@[0] == 'T' && "Title"@[0] == 'T');
}

/// No wire tag is the name of the tag member itself.
pub proof fn lemma_tags_not_type(k: PropertyKind)
    ensures
        wire_tag(k) != "type"@,
{
    reveal_strlit("title");
    reveal_strlit("rich_text");
    reveal_strlit("number");
    reveal_strlit("select");
    reveal_strlit("status");
    reveal_strlit("multi_select");
    reveal_strlit("date");
    reveal_strlit("people");
    reveal_strlit("files");
    reveal_strlit("checkbox");
    reveal_strlit("url");
    reveal_strlit("email");
    reveal_strlit("phone_number");
    reveal_strlit("formula");
    reveal_strlit("relation");
    reveal_strlit("rollup");
    reveal_strlit("created_time");
    reveal_strlit("created_by");
    reveal_strlit("last_edited_time");
    reveal_strlit("last_edited_by");
    reveal_strlit("button");
    reveal_strlit("type");
    assert("title"@.len() == 5 && "rich_text"@.len() == 9 && "number"@.len() == 6);
    assert("select"@.len() == 6 && "status"@.len() == 6 && "multi_select"@.len() == 12);
    assert("date"@.len() == 4 && "people"@.len() == 6 && "files"@.len() == 5);
    assert("checkbox"@.len() == 8 && "url"@.len() == 3 && "email"@.len() == 5);
    assert("phone_number"@.len() == 12 && "formula"@.len() == 7 && "relation"@.len() == 8);
    assert("rollup"@.len() == 6 && "created_time"@.len() == 12 && "created_by"@.len() == 10);
    assert("last_edited_time"@.len() == 16 && "last_edited_by"@.len() == 14 && "button"@.len() == 6);
    assert("type"@.len() == 4 && "button"@[0] == 'b' && "checkbox"@[0] == 'c');
    assert("created_time"@[0] == 'c' && "date"@[0] == 'd' && "email"@[0] == 'e');
    assert("files"@[0] == 'f' && "multi_select"@[0] == 'm' && "number"@[0] == 'n');
    assert("people"@[0] == 'p' && "phone_number"@[0] == 'p' && "relation"@[0] == 'r');
    assert("rollup"@[0] == 'r' && "select"@[0] == 's' && "select"@[1] == 'e');
    assert("status"@[0] == 's' && "status"@[1] == 't' && "title"@[0] == 't');
    assert("type"@[0] == 't');
}

/// The value of a property on a page; on the wire, `type` holds the tag of
/// its kind and the member named by that tag holds the content.
#[derive(Debug, PartialEq, Eq)]
pub enum PropertyValue {
    Title { title: Vec<RichText> },
    Text { rich_text: Vec<RichText> },
    Number { number: Option<serde_json::Number> },
    Select { select: Option<SelectedValue> },
    Status { status: Option<SelectedValue> },
    MultiSelect { multi_select: Option<Vec<SelectedValue>> },
    Date { date: Option<DateValue> },
    People { people: Vec<User> },
    Files { files: Option<Vec<FileReference>> },
    Checkbox { checkbox: bool },
    Url { url: Option<String> },
    Email { email: Option<String> },
    PhoneNumber { phone_number: Option<String> },
    Formula { formula: FormulaResultValue },
    Relation { relation: Option<Vec<RelationValue>> },
    Rollup { rollup: Option<RollupValue> },
    CreatedTime { created_time: Timestamp },
    CreatedBy { created_by: User },
    LastEditedTime { last_edited_time: Timestamp },
    LastEditedBy { last_edited_by: User },
    Button,
}

/// The model of a [`PropertyValue`].
pub enum PropertyValueModel {
    Title(Seq<RichTextModel>),
    Text(Seq<RichTextModel>),
    Number(Option<serde_json::Number>),
    Select(Option<SelectedValueModel>),
    Status(Option<SelectedValueModel>),
    MultiSelect(Option<Seq<SelectedValueModel>>),
    Date(Option<DateValueModel>),
    People(Seq<UserModel>),
    Files(Option<Seq<FileReferenceModel>>),
    Checkbox(bool),
    Url(Option<Seq<char>>),
    Email(Option<Seq<char>>),
    PhoneNumber(Option<Seq<char>>),
    Formula(FormulaResultModel),
    Relation(Option<Seq<Seq<char>>>),
    Rollup(Option<RollupValueModel>),
    CreatedTime((int, int, int, int, int)),
    CreatedBy(UserModel),
    LastEditedTime((int, int, int, int, int)),
    LastEditedBy(UserModel),
    Button,
}

impl PropertyValueModel {
    pub open spec fn kind(self) -> PropertyKind {
        match self {
            PropertyValueModel::Title(..) => PropertyKind::Title,
            PropertyValueModel::Text(..) => PropertyKind::Text,
            PropertyValueModel::Number(..) => PropertyKind::Number,
            PropertyValueModel::Select(..) => PropertyKind::Select,
            PropertyValueModel::Status(..) => PropertyKind::Status,
            PropertyValueModel::MultiSelect(..) => PropertyKind::MultiSelect,
            PropertyValueModel::Date(..) => PropertyKind::Date,
            PropertyValueModel::People(..) => PropertyKind::People,
            PropertyValueModel::Files(..) => PropertyKind::Files,
            PropertyValueModel::Checkbox(..) => PropertyKind::Checkbox,
            PropertyValueModel::Url(..) => PropertyKind::Url,
            PropertyValueModel::Email(..) => PropertyKind::Email,
            PropertyValueModel::PhoneNumber(..) => PropertyKind::PhoneNumber,
            PropertyValueModel::Formula(..) => PropertyKind::Formula,
            PropertyValueModel::Relation(..) => PropertyKind::Relation,
            PropertyValueModel::Rollup(..) => PropertyKind::Rollup,
            PropertyValueModel::CreatedTime(..) => PropertyKind::CreatedTime,
            PropertyValueModel::CreatedBy(..) => PropertyKind::CreatedBy,
            PropertyValueModel::LastEditedTime(..) => PropertyKind::LastEditedTime,
            PropertyValueModel::LastEditedBy(..) => PropertyKind::LastEditedBy,
            PropertyValueModel::Button => PropertyKind::Button,
        }
    }
}

impl DeepView for PropertyValue {
    type V = PropertyValueModel;

    open spec fn deep_view(&self) -> PropertyValueModel {
        match self {
            PropertyValue::Title { title } => PropertyValueModel::Title(title.deep_view()),
            PropertyValue::Text { rich_text } => PropertyValueModel::Text(rich_text.deep_view()),
            PropertyValue::Number { number } => PropertyValueModel::Number(*number),
            PropertyValue::Select { select } => PropertyValueModel::Select(select.deep_view()),
            PropertyValue::Status { status } => PropertyValueModel::Status(status.deep_view()),
            PropertyValue::MultiSelect { multi_select } => PropertyValueModel::MultiSelect(multi_select.deep_view()),
            PropertyValue::Date { date } => PropertyValueModel::Date(date.deep_view()),
            PropertyValue::People { people } => PropertyValueModel::People(people.deep_view()),
            PropertyValue::Files { files } => PropertyValueModel::Files(files.deep_view()),
            PropertyValue::Checkbox { checkbox } => PropertyValueModel::Checkbox(*checkbox),
            PropertyValue::Url { url } => PropertyValueModel::Url(url.deep_view()),
            PropertyValue::Email { email } => PropertyValueModel::Email(email.deep_view()),
            PropertyValue::PhoneNumber { phone_number } => PropertyValueModel::PhoneNumber(phone_number.deep_view()),
            PropertyValue::Formula { formula } => PropertyValueModel::Formula(formula.deep_view()),
            PropertyValue::Relation { relation } => PropertyValueModel::Relation(relation.deep_view()),
            PropertyValue::Rollup { rollup } => PropertyValueModel::Rollup(rollup.deep_view()),
            PropertyValue::CreatedTime { created_time } => PropertyValueModel::CreatedTime(created_time.deep_view()),
            PropertyValue::CreatedBy { created_by } => PropertyValueModel::CreatedBy(created_by.deep_view()),
            PropertyValue::LastEditedTime { last_edited_time } => PropertyValueModel::LastEditedTime(last_edited_time.deep_view()),
            PropertyValue::LastEditedBy { last_edited_by } => PropertyValueModel::LastEditedBy(last_edited_by.deep_view()),
            PropertyValue::Button => PropertyValueModel::Button,
        }
    }
}

/// The content of a value, written under the member named by its tag; a
/// button has none.
pub open spec fn enc_payload(m: PropertyValueModel) -> Option<Json> {
    match m {
        PropertyValueModel::Title(p) => Some(enc_list::<RichText>(p)),
        PropertyValueModel::Text(p) => Some(enc_list::<RichText>(p)),
        PropertyValueModel::Number(p) => Some(num_or_null(p)),
        PropertyValueModel::Select(p) => Some(enc_opt::<SelectedValue>(p)),
        PropertyValueModel::Status(p) => Some(enc_opt::<SelectedValue>(p)),
        PropertyValueModel::MultiSelect(p) => Some(enc_opt_list::<SelectedValue>(p)),
        PropertyValueModel::Date(p) => Some(enc_opt::<DateValue>(p)),
        PropertyValueModel::People(p) => Some(enc_list::<User>(p)),
        PropertyValueModel::Files(p) => Some(enc_opt_list::<FileReference>(p)),
        PropertyValueModel::Checkbox(p) => Some(Json::Bool(p)),
        PropertyValueModel::Url(p) => Some(str_or_null(p)),
        PropertyValueModel::Email(p) => Some(str_or_null(p)),
        PropertyValueModel::PhoneNumber(p) => Some(str_or_null(p)),
        PropertyValueModel::Formula(p) => Some(FormulaResultValue::enc_spec(p)),
        PropertyValueModel::Relation(p) => Some(enc_opt_list::<RelationValue>(p)),
        PropertyValueModel::Rollup(p) => Some(enc_opt::<RollupValue>(p)),
        PropertyValueModel::CreatedTime(p) => Some(Timestamp::enc_spec(p)),
        PropertyValueModel::CreatedBy(p) => Some(User::enc_spec(p)),
        PropertyValueModel::LastEditedTime(p) => Some(Timestamp::enc_spec(p)),
        PropertyValueModel::LastEditedBy(p) => Some(User::enc_spec(p)),
        PropertyValueModel::Button => None,
    }
}

/// The wire form of a property value: its tag under `type`, and its content
/// under the member named by the tag.
pub open spec fn enc_property_value(m: PropertyValueModel) -> Json {
    let tag = wire_tag(m.kind());
    match enc_payload(m) {
        Some(p) => tagged(tag, p),
        None => Json::Object(seq![("type"@, Json::Str(tag))]),
    }
}

/// Reading the content of a value of kind `k` from the object `j`.
pub open spec fn dec_payload(k: PropertyKind, j: Json) -> Option<PropertyValueModel> {
    match k {
        PropertyKind::Title => match list_field::<RichText>(j, "title"@) {
            Some(p) => Some(PropertyValueModel::Title(p)),
            None => None,
        },
        PropertyKind::Text => match list_field::<RichText>(j, "rich_text"@) {
            Some(p) => Some(PropertyValueModel::Text(p)),
            None => None,
        },
        PropertyKind::Number => match opt_number_field(j, "number"@) {
            Some(p) => Some(PropertyValueModel::Number(p)),
            None => None,
        },
        PropertyKind::Select => match opt_codec_field::<SelectedValue>(j, "select"@) {
            Some(p) => Some(PropertyValueModel::Select(p)),
            None => None,
        },
        PropertyKind::Status => match opt_codec_field::<SelectedValue>(j, "status"@) {
            Some(p) => Some(PropertyValueModel::Status(p)),
            None => None,
        },
        PropertyKind::MultiSelect => match opt_list_field::<SelectedValue>(j, "multi_select"@) {
            Some(p) => Some(PropertyValueModel::MultiSelect(p)),
            None => None,
        },
        PropertyKind::Date => match opt_codec_field::<DateValue>(j, "date"@) {
            Some(p) => Some(PropertyValueModel::Date(p)),
            None => None,
        },
        PropertyKind::People => match list_field::<User>(j, "people"@) {
            Some(p) => Some(PropertyValueModel::People(p)),
            None => None,
        },
        PropertyKind::Files => match opt_list_field::<FileReference>(j, "files"@) {
            Some(p) => Some(PropertyValueModel::Files(p)),
            None => None,
        },
        PropertyKind::Checkbox => match bool_field(j, "checkbox"@) {
            Some(p) => Some(PropertyValueModel::Checkbox(p)),
            None => None,
        },
        PropertyKind::Url => match opt_str_field(j, "url"@) {
            Some(p) => Some(PropertyValueModel::Url(p)),
            None => None,
        },
        PropertyKind::Email => match opt_str_field(j, "email"@) {
            Some(p) => Some(PropertyValueModel::Email(p)),
            None => None,
        },
        PropertyKind::PhoneNumber => match opt_str_field(j, "phone_number"@) {
            Some(p) => Some(PropertyValueModel::PhoneNumber(p)),
            None => None,
        },
        PropertyKind::Formula => match codec_field::<FormulaResultValue>(j, "formula"@) {
            Some(p) => Some(PropertyValueModel::Formula(p)),
            None => None,
        },
        PropertyKind::Relation => match opt_list_field::<RelationValue>(j, "relation"@) {
            Some(p) => Some(PropertyValueModel::Relation(p)),
            None => None,
        },
        PropertyKind::Rollup => match opt_codec_field::<RollupValue>(j, "rollup"@) {
            Some(p) => Some(PropertyValueModel::Rollup(p)),
            None => None,
        },
        PropertyKind::CreatedTime => match codec_field::<Timestamp>(j, "created_time"@) {
            Some(p) => Some(PropertyValueModel::CreatedTime(p)),
            None => None,
        },
        PropertyKind::CreatedBy => match codec_field::<User>(j, "created_by"@) {
            Some(p) => Some(PropertyValueModel::CreatedBy(p)),
            None => None,
        },
        PropertyKind::LastEditedTime => match codec_field::<Timestamp>(j, "last_edited_time"@) {
            Some(p) => Some(PropertyValueModel::LastEditedTime(p)),
            None => None,
        },
        PropertyKind::LastEditedBy => match codec_field::<User>(j, "last_edited_by"@) {
            Some(p) => Some(PropertyValueModel::LastEditedBy(p)),
            None => None,
        },
        PropertyKind::Button => Some(PropertyValueModel::Button),
    }
}

/// Reading a property value: `type` must hold a known tag, and the content
/// must read as that kind; other members are ignored.
pub open spec fn dec_property_value(j: Json) -> Option<PropertyValueModel> {
    match str_field(j, "type"@) {
        Some(tag) => match kind_of_tag(tag) {
            Some(k) => dec_payload(k, j),
            None => None,
        },
        None => None,
    }
}

/// Whether the dates and instants in a property value have four-digit years.
pub open spec fn property_value_in_range(m: PropertyValueModel) -> bool {
    match m {
        PropertyValueModel::Title(p) => all_in_range::<RichText>(p),
        PropertyValueModel::Text(p) => all_in_range::<RichText>(p),
        PropertyValueModel::Number(p) => true,
        PropertyValueModel::Select(p) => opt_in_range::<SelectedValue>(p),
        PropertyValueModel::Status(p) => opt_in_range::<SelectedValue>(p),
        PropertyValueModel::MultiSelect(p) => opt_all_in_range::<SelectedValue>(p),
        PropertyValueModel::Date(p) => opt_in_range::<DateValue>(p),
        PropertyValueModel::People(p) => all_in_range::<User>(p),
        PropertyValueModel::Files(p) => opt_all_in_range::<FileReference>(p),
        PropertyValueModel::Checkbox(p) => true,
        PropertyValueModel::Url(p) => true,
        PropertyValueModel::Email(p) => true,
        PropertyValueModel::PhoneNumber(p) => true,
        PropertyValueModel::Formula(p) => FormulaResultValue::in_range(p),
        PropertyValueModel::Relation(p) => opt_all_in_range::<RelationValue>(p),
        PropertyValueModel::Rollup(p) => opt_in_range::<RollupValue>(p),
        PropertyValueModel::CreatedTime(p) => Timestamp::in_range(p),
        PropertyValueModel::CreatedBy(p) => User::in_range(p),
        PropertyValueModel::LastEditedTime(p) => Timestamp::in_range(p),
        PropertyValueModel::LastEditedBy(p) => User::in_range(p),
        PropertyValueModel::Button => true,
    }
}

/// Reads the content of a value of kind `kind` from the object `j`.
fn decode_payload(kind: PropertyKind, j: &JsonValue) -> (r: Option<PropertyValue>)
    ensures
        r.deep_view() == dec_payload(kind, j@),
{
    match kind {
        PropertyKind::Title => match decode_list_field::<RichText>(j, "title") {
            Some(title) => Some(PropertyValue::Title { title }),
            None => None,
        },
        PropertyKind::Text => match decode_list_field::<RichText>(j, "rich_text") {
            Some(rich_text) => Some(PropertyValue::Text { rich_text }),
            None => None,
        },
        PropertyKind::Number => match optional_number_field(j, "number") {
            Some(number) => Some(PropertyValue::Number { number }),
            None => None,
        },
        PropertyKind::Select => match decode_opt_field::<SelectedValue>(j, "select") {
            Some(select) => Some(PropertyValue::Select { select }),
            None => None,
        },
        PropertyKind::Status => match decode_opt_field::<SelectedValue>(j, "status") {
            Some(status) => Some(PropertyValue::Status { status }),
            None => None,
        },
        PropertyKind::MultiSelect => match decode_opt_list_field::<SelectedValue>(j, "multi_select") {
            Some(multi_select) => Some(PropertyValue::MultiSelect { multi_select }),
            None => None,
        },
        PropertyKind::Date => match decode_opt_field::<DateValue>(j, "date") {
            Some(date) => Some(PropertyValue::Date { date }),
            None => None,
        },
        PropertyKind::People => match decode_list_field::<User>(j, "people") {
            Some(people) => Some(PropertyValue::People { people }),
            None => None,
        },
        PropertyKind::Files => match decode_opt_list_field::<FileReference>(j, "files") {
            Some(files) => Some(PropertyValue::Files { files }),
            None => None,
        },
        PropertyKind::Checkbox => match boolean_field(j, "checkbox") {
            Some(checkbox) => Some(PropertyValue::Checkbox { checkbox }),
            None => None,
        },
        PropertyKind::Url => match optional_string_field(j, "url") {
            Some(url) => Some(PropertyValue::Url { url }),
            None => None,
        },
        PropertyKind::Email => match optional_string_field(j, "email") {
            Some(email) => Some(PropertyValue::Email { email }),
            None => None,
        },
        PropertyKind::PhoneNumber => match optional_string_field(j, "phone_number") {
            Some(phone_number) => Some(PropertyValue::PhoneNumber { phone_number }),
            None => None,
        },
        PropertyKind::Formula => match decode_field::<FormulaResultValue>(j, "formula") {
            Some(formula) => Some(PropertyValue::Formula { formula }),
            None => None,
        },
        PropertyKind::Relation => match decode_opt_list_field::<RelationValue>(j, "relation") {
            Some(relation) => Some(PropertyValue::Relation { relation }),
            None => None,
        },
        PropertyKind::Rollup => match decode_opt_field::<RollupValue>(j, "rollup") {
            Some(rollup) => Some(PropertyValue::Rollup { rollup }),
            None => None,
        },
        PropertyKind::CreatedTime => match decode_field::<Timestamp>(j, "created_time") {
            Some(created_time) => Some(PropertyValue::CreatedTime { created_time }),
            None => None,
        },
        PropertyKind::CreatedBy => match decode_field::<User>(j, "created_by") {
            Some(created_by) => Some(PropertyValue::CreatedBy { created_by }),
            None => None,
        },
        PropertyKind::LastEditedTime => match decode_field::<Timestamp>(j, "last_edited_time") {
            Some(last_edited_time) => Some(PropertyValue::LastEditedTime { last_edited_time }),
            None => None,
        },
        PropertyKind::LastEditedBy => match decode_field::<User>(j, "last_edited_by") {
            Some(last_edited_by) => Some(PropertyValue::LastEditedBy { last_edited_by }),
            None => None,
        },
        PropertyKind::Button => Some(PropertyValue::Button),
    }
}

impl PropertyValue {
    /// The kind of the value.
    pub fn kind(&self) -> (r: PropertyKind)
        ensures
            r == self.deep_view().kind(),
    {
        match self {
            PropertyValue::Title { .. } => PropertyKind::Title,
            PropertyValue::Text { .. } => PropertyKind::Text,
            PropertyValue::Number { .. } => PropertyKind::Number,
            PropertyValue::Select { .. } => PropertyKind::Select,
            PropertyValue::Status { .. } => PropertyKind::Status,
            PropertyValue::MultiSelect { .. } => PropertyKind::MultiSelect,
            PropertyValue::Date { .. } => PropertyKind::Date,
            PropertyValue::People { .. } => PropertyKind::People,
            PropertyValue::Files { .. } => PropertyKind::Files,
            PropertyValue::Checkbox { .. } => PropertyKind::Checkbox,
            PropertyValue::Url { .. } => PropertyKind::Url,
            PropertyValue::Email { .. } => PropertyKind::Email,
            PropertyValue::PhoneNumber { .. } => PropertyKind::PhoneNumber,
            PropertyValue::Formula { .. } => PropertyKind::Formula,
            PropertyValue::Relation { .. } => PropertyKind::Relation,
            PropertyValue::Rollup { .. } => PropertyKind::Rollup,
            PropertyValue::CreatedTime { .. } => PropertyKind::CreatedTime,
            PropertyValue::CreatedBy { .. } => PropertyKind::CreatedBy,
            PropertyValue::LastEditedTime { .. } => PropertyKind::LastEditedTime,
            PropertyValue::LastEditedBy { .. } => PropertyKind::LastEditedBy,
            PropertyValue::Button => PropertyKind::Button,
        }
    }

    /// The name of the value's kind, as diagnostics show it.
    pub fn property_type_name(&self) -> (r: String)
        ensures
            r@ == kind_name(self.deep_view().kind()),
    {
        self.kind().name().to_owned()
    }

    /// The wire form of the value; reading it back gives the value when
    /// its dates and instants have four-digit years.
    pub fn encode(&self) -> (r: JsonValue)
        ensures
            r@ == enc_property_value(self.deep_view()),
            property_value_in_range(self.deep_view()) ==> dec_property_value(r@) == Some(
                self.deep_view(),
            ),
    {
        let kind = self.kind();
        let tag = kind.wire_name();
        proof {
            lemma_property_kind_names(kind);
            lemma_tags_not_type(kind);
        }
        match self {
            PropertyValue::Title { title } => {
                let p = encode_list(title);
                proof {
                    lemma_tagged(tag@, p@);
                }
                tagged_object(tag, p)
            },
            PropertyValue::Text { rich_text } => {
                let p = encode_list(rich_text);
                proof {
                    lemma_tagged(tag@, p@);
                }
                tagged_object(tag, p)
            },
            PropertyValue::Number { number } => {
                let p = number_or_null(number);
                proof {
                    lemma_tagged(tag@, p@);
                }
                tagged_object(tag, p)
            },
            PropertyValue::Select { select } => {
                let p = encode_opt(select);
                proof {
                    lemma_tagged(tag@, p@);
                }
                tagged_object(tag, p)
            },
            PropertyValue::Status { status } => {
                let p = encode_opt(status);
                proof {
                    lemma_tagged(tag@, p@);
                }
                tagged_object(tag, p)
            },
            PropertyValue::MultiSelect { multi_select } => {
                let p = encode_opt_list(multi_select);
                proof {
                    lemma_tagged(tag@, p@);
                }
                tagged_object(tag, p)
            },
            PropertyValue::Date { date } => {
                let p = encode_opt(date);
                proof {
                    lemma_tagged(tag@, p@);
                }
                tagged_object(tag, p)
            },
            PropertyValue::People { people } => {
                let p = encode_list(people);
                proof {
                    lemma_tagged(tag@, p@);
                }
                tagged_object(tag, p)
            },
            PropertyValue::Files { files } => {
                let p = encode_opt_list(files);
                proof {
                    lemma_tagged(tag@, p@);
                }
                tagged_object(tag, p)
            },
            PropertyValue::Checkbox { checkbox } => {
                let p = JsonValue::Bool(*checkbox);
                proof {
                    lemma_tagged(tag@, p@);
                }
                tagged_object(tag, p)
            },
            PropertyValue::Url { url } => {
                let p = string_or_null(url);
                proof {
                    lemma_tagged(tag@, p@);
                }
                tagged_object(tag, p)
            },
            PropertyValue::Email { email } => {
                let p = string_or_null(email);
                proof {
                    lemma_tagged(tag@, p@);
                }
                tagged_object(tag, p)
            },
            PropertyValue::PhoneNumber { phone_number } => {
                let p = string_or_null(phone_number);
                proof {
                    lemma_tagged(tag@, p@);
                }
                tagged_object(tag, p)
            },
            PropertyValue::Formula { formula } => {
                let p = formula.encode();
                proof {
                    lemma_tagged(tag@, p@);
                }
                tagged_object(tag, p)
            },
            PropertyValue::Relation { relation } => {
                let p = encode_opt_list(relation);
                proof {
                    lemma_tagged(tag@, p@);
                }
                tagged_object(tag, p)
            },
            PropertyValue::Rollup { rollup } => {
                let p = encode_opt(rollup);
                proof {
                    lemma_tagged(tag@, p@);
                }
                tagged_object(tag, p)
            },
            PropertyValue::CreatedTime { created_time } => {
                let p = created_time.encode();
                proof {
                    lemma_tagged(tag@, p@);
                }
                tagged_object(tag, p)
            },
            PropertyValue::CreatedBy { created_by } => {
                let p = created_by.encode();
                proof {
                    lemma_tagged(tag@, p@);
                }
                tagged_object(tag, p)
            },
            PropertyValue::LastEditedTime { last_edited_time } => {
                let p = last_edited_time.encode();
                proof {
                    lemma_tagged(tag@, p@);
                }
                tagged_object(tag, p)
            },
            PropertyValue::LastEditedBy { last_edited_by } => {
                let p = last_edited_by.encode();
                proof {
                    lemma_tagged(tag@, p@);
                }
                tagged_object(tag, p)
            },
            PropertyValue::Button => {
                let mut ms = new_members();
                add_member(&mut ms, "type", string_value(tag));
                let r = object(ms);
                assert(r@->Object_0 =~= seq![("type"@, Json::Str(tag@))]);
                proof {
                    lemma_member_at(r@->Object_0, 0);
                }
                r
            },
        }
    }

    /// Reads a property value from its wire form; fails when `type` is
    /// missing, names no kind, or the content does not read as that kind.
    pub fn decode(j: &JsonValue) -> (r: Result<PropertyValue, DecodeError>)
        ensures
            match str_field(j@, "type"@) {
                None => r matches Err(DecodeError::MissingTag),
                Some(t) => match kind_of_tag(t) {
                    None => r matches Err(DecodeError::UnknownTag { tag }) && tag@ == t,
                    Some(k) => match dec_payload(k, j@) {
                        Some(m) => r matches Ok(v) && v.deep_view() == m,
                        None => r matches Err(DecodeError::Malformed { tag }) && tag@ == t,
                    },
                },
            },
            r is Ok <==> dec_property_value(j@) is Some,
            r matches Ok(v) ==> dec_property_value(j@) == Some(v.deep_view()),
    {
        let tag = match string_field(j, "type") {
            Some(t) => t,
            None => {
                return Err(DecodeError::MissingTag);
            },
        };
        let kind = match PropertyKind::from_wire_name(&tag) {
            Some(k) => k,
            None => {
                return Err(DecodeError::UnknownTag { tag });
            },
        };
        match decode_payload(kind, j) {
            Some(v) => Ok(v),
            None => Err(DecodeError::Malformed { tag }),
        }
    }
}

/// An aggregate that a rollup property computes over the pages of a
/// relation.
#[derive(Debug, PartialEq, Eq)]
pub enum RollupValue {
    Number { number: Option<serde_json::Number> },
    Date { date: Option<Timestamp> },
    Array { array: Vec<RollupPropertyValue> },
}

/// One element of a rollup array: the value of a property of a related
/// page, in the same wire form as a [`PropertyValue`].
#[derive(Debug, PartialEq, Eq)]
pub enum RollupPropertyValue {
    Text { rich_text: Vec<RichText> },
    Number { number: Option<serde_json::Number> },
    Select { select: Option<SelectedValue> },
    Status { status: Option<SelectedValue> },
    MultiSelect { multi_select: Option<Vec<SelectedValue>> },
    Date { date: Option<DateValue> },
    People { people: Vec<User> },
    Files { files: Option<Vec<FileReference>> },
    Checkbox { checkbox: bool },
    Url { url: Option<String> },
    Email { email: Option<String> },
    PhoneNumber { phone_number: String },
    Formula { formula: FormulaResultValue },
    Relation { relation: Option<Vec<RelationValue>> },
    Rollup { rollup: Option<RollupValue> },
    CreatedTime { created_time: Timestamp },
    CreatedBy { created_by: User },
    LastEditedTime { last_edited_time: Timestamp },
    LastEditedBy { last_edited_by: User },
}

pub enum RollupValueModel {
    Number(Option<serde_json::Number>),
    Date(Option<(int, int, int, int, int)>),
    Array(Seq<RollupPropertyValueModel>),
}

/// The model of a [`RollupPropertyValue`].
pub enum RollupPropertyValueModel {
    Text(Seq<RichTextModel>),
    Number(Option<serde_json::Number>),
    Select(Option<SelectedValueModel>),
    Status(Option<SelectedValueModel>),
    MultiSelect(Option<Seq<SelectedValueModel>>),
    Date(Option<DateValueModel>),
    People(Seq<UserModel>),
    Files(Option<Seq<FileReferenceModel>>),
    Checkbox(bool),
    Url(Option<Seq<char>>),
    Email(Option<Seq<char>>),
    PhoneNumber(Seq<char>),
    Formula(FormulaResultModel),
    Relation(Option<Seq<Seq<char>>>),
    Rollup(Option<RollupValueModel>),
    CreatedTime((int, int, int, int, int)),
    CreatedBy(UserModel),
    LastEditedTime((int, int, int, int, int)),
    LastEditedBy(UserModel),
}

impl RollupPropertyValueModel {
    pub open spec fn kind(self) -> PropertyKind {
        match self {
            RollupPropertyValueModel::Text(..) => PropertyKind::Text,
            RollupPropertyValueModel::Number(..) => PropertyKind::Number,
            RollupPropertyValueModel::Select(..) => PropertyKind::Select,
            RollupPropertyValueModel::Status(..) => PropertyKind::Status,
            RollupPropertyValueModel::MultiSelect(..) => PropertyKind::MultiSelect,
            RollupPropertyValueModel::Date(..) => PropertyKind::Date,
            RollupPropertyValueModel::People(..) => PropertyKind::People,
            RollupPropertyValueModel::Files(..) => PropertyKind::Files,
            RollupPropertyValueModel::Checkbox(..) => PropertyKind::Checkbox,
            RollupPropertyValueModel::Url(..) => PropertyKind::Url,
            RollupPropertyValueModel::Email(..) => PropertyKind::Email,
            RollupPropertyValueModel::PhoneNumber(..) => PropertyKind::PhoneNumber,
            RollupPropertyValueModel::Formula(..) => PropertyKind::Formula,
            RollupPropertyValueModel::Relation(..) => PropertyKind::Relation,
            RollupPropertyValueModel::Rollup(..) => PropertyKind::Rollup,
            RollupPropertyValueModel::CreatedTime(..) => PropertyKind::CreatedTime,
            RollupPropertyValueModel::CreatedBy(..) => PropertyKind::CreatedBy,
            RollupPropertyValueModel::LastEditedTime(..) => PropertyKind::LastEditedTime,
            RollupPropertyValueModel::LastEditedBy(..) => PropertyKind::LastEditedBy,
        }
    }
}

impl RollupValue {
    pub open spec fn model(&self) -> RollupValueModel
        decreases self,
    {
        match self {
            RollupValue::Number { number } => RollupValueModel::Number(*number),
            RollupValue::Date { date } => RollupValueModel::Date(date.deep_view()),
            RollupValue::Array { array } => RollupValueModel::Array(
                Seq::new(
                    array@.len(),
                    |i: int|
                        if 0 <= i < array@.len() {
                            array@[i].model()
                        } else {
                            RollupPropertyValueModel::Checkbox(false)
                        },
                ),
            ),
        }
    }
}

impl RollupPropertyValue {
    pub open spec fn model(&self) -> RollupPropertyValueModel
        decreases self,
    {
        match self {
            RollupPropertyValue::Text { rich_text } => RollupPropertyValueModel::Text(rich_text.deep_view()),
            RollupPropertyValue::Number { number } => RollupPropertyValueModel::Number(*number),
            RollupPropertyValue::Select { select } => RollupPropertyValueModel::Select(select.deep_view()),
            RollupPropertyValue::Status { status } => RollupPropertyValueModel::Status(status.deep_view()),
            RollupPropertyValue::MultiSelect { multi_select } => RollupPropertyValueModel::MultiSelect(multi_select.deep_view()),
            RollupPropertyValue::Date { date } => RollupPropertyValueModel::Date(date.deep_view()),
            RollupPropertyValue::People { people } => RollupPropertyValueModel::People(people.deep_view()),
            RollupPropertyValue::Files { files } => RollupPropertyValueModel::Files(files.deep_view()),
            RollupPropertyValue::Checkbox { checkbox } => RollupPropertyValueModel::Checkbox(*checkbox),
            RollupPropertyValue::Url { url } => RollupPropertyValueModel::Url(url.deep_view()),
            RollupPropertyValue::Email { email } => RollupPropertyValueModel::Email(email.deep_view()),
            RollupPropertyValue::PhoneNumber { phone_number } => RollupPropertyValueModel::PhoneNumber(phone_number@),
            RollupPropertyValue::Formula { formula } => RollupPropertyValueModel::Formula(formula.deep_view()),
            RollupPropertyValue::Relation { relation } => RollupPropertyValueModel::Relation(relation.deep_view()),
            RollupPropertyValue::Rollup { rollup } => RollupPropertyValueModel::Rollup(
                match rollup {
                    Some(v) => Some(v.model()),
                    None => None,
                },
            ),
            RollupPropertyValue::CreatedTime { created_time } => RollupPropertyValueModel::CreatedTime(created_time.deep_view()),
            RollupPropertyValue::CreatedBy { created_by } => RollupPropertyValueModel::CreatedBy(created_by.deep_view()),
            RollupPropertyValue::LastEditedTime { last_edited_time } => RollupPropertyValueModel::LastEditedTime(last_edited_time.deep_view()),
            RollupPropertyValue::LastEditedBy { last_edited_by } => RollupPropertyValueModel::LastEditedBy(last_edited_by.deep_view()),
        }
    }
}

impl DeepView for RollupValue {
    type V = RollupValueModel;

    open spec fn deep_view(&self) -> RollupValueModel {
        self.model()
    }
}

impl DeepView for RollupPropertyValue {
    type V = RollupPropertyValueModel;

    open spec fn deep_view(&self) -> RollupPropertyValueModel {
        self.model()
    }
}

/// The wire form of a rollup: its kind under `type` (`number`, `date` or
/// `array`) and its content under the member of that name.
pub open spec fn enc_rollup_value(m: RollupValueModel) -> Json
    decreases m,
{
    match m {
        RollupValueModel::Number(n) => tagged("number"@, num_or_null(n)),
        RollupValueModel::Date(d) => tagged("date"@, enc_opt::<Timestamp>(d)),
        RollupValueModel::Array(items) => tagged(
            "array"@,
            Json::Array(
                Seq::new(
                    items.len(),
                    |i: int|
                        if 0 <= i < items.len() {
                            enc_rollup_item(items[i])
                        } else {
                            Json::Null
                        },
                ),
            ),
        ),
    }
}

/// The wire form of an element of a rollup array, as for a property value.
pub open spec fn enc_rollup_item(m: RollupPropertyValueModel) -> Json
    decreases m,
{
    match m {
        RollupPropertyValueModel::Text(p) => tagged("rich_text"@, enc_list::<RichText>(p)),
        RollupPropertyValueModel::Number(p) => tagged("number"@, num_or_null(p)),
        RollupPropertyValueModel::Select(p) => tagged("select"@, enc_opt::<SelectedValue>(p)),
        RollupPropertyValueModel::Status(p) => tagged("status"@, enc_opt::<SelectedValue>(p)),
        RollupPropertyValueModel::MultiSelect(p) => tagged("multi_select"@, enc_opt_list::<SelectedValue>(p)),
        RollupPropertyValueModel::Date(p) => tagged("date"@, enc_opt::<DateValue>(p)),
        RollupPropertyValueModel::People(p) => tagged("people"@, enc_list::<User>(p)),
        RollupPropertyValueModel::Files(p) => tagged("files"@, enc_opt_list::<FileReference>(p)),
        RollupPropertyValueModel::Checkbox(p) => tagged("checkbox"@, Json::Bool(p)),
        RollupPropertyValueModel::Url(p) => tagged("url"@, str_or_null(p)),
        RollupPropertyValueModel::Email(p) => tagged("email"@, str_or_null(p)),
        RollupPropertyValueModel::PhoneNumber(p) => tagged("phone_number"@, Json::Str(p)),
        RollupPropertyValueModel::Formula(p) => tagged("formula"@, FormulaResultValue::enc_spec(p)),
        RollupPropertyValueModel::Relation(p) => tagged("relation"@, enc_opt_list::<RelationValue>(p)),
        RollupPropertyValueModel::Rollup(r) => tagged(
            "rollup"@,
            match r {
                Some(v) => enc_rollup_value(v),
                None => Json::Null,
            },
        ),
        RollupPropertyValueModel::CreatedTime(p) => tagged("created_time"@, Timestamp::enc_spec(p)),
        RollupPropertyValueModel::CreatedBy(p) => tagged("created_by"@, User::enc_spec(p)),
        RollupPropertyValueModel::LastEditedTime(p) => tagged("last_edited_time"@, Timestamp::enc_spec(p)),
        RollupPropertyValueModel::LastEditedBy(p) => tagged("last_edited_by"@, User::enc_spec(p)),
    }
}

/// Reading a rollup.
pub open spec fn dec_rollup_value(j: Json) -> Option<RollupValueModel>
    decreases j, 2int,
{
    match str_field(j, "type"@) {
        Some(tag) => if tag == "number"@ {
            match opt_number_field(j, "number"@) {
                Some(n) => Some(RollupValueModel::Number(n)),
                None => None,
            }
        } else if tag == "date"@ {
            match opt_codec_field::<Timestamp>(j, "date"@) {
                Some(d) => Some(RollupValueModel::Date(d)),
                None => None,
            }
        } else if tag == "array"@ {
            match j.field("array"@) {
                Some(Json::Array(items)) => {
                    proof {
                        lemma_field_decreases(j, "array"@);
                    }
                    if forall|i: int|
                        0 <= i < items.len() ==> dec_rollup_item(#[trigger] items[i]) is Some {
                        Some(
                            RollupValueModel::Array(
                                Seq::new(
                                    items.len(),
                                    |i: int|
                                        if 0 <= i < items.len() {
                                            dec_rollup_item(items[i])->0
                                        } else {
                                            RollupPropertyValueModel::Checkbox(false)
                                        },
                                ),
                            ),
                        )
                    } else {
                        None
                    }
                },
                _ => None,
            }
        } else {
            None
        },
        None => None,
    }
}

/// Reading an element of a rollup array: as a property value, but neither a
/// title nor a button.
pub open spec fn dec_rollup_item(j: Json) -> Option<RollupPropertyValueModel>
    decreases j, 1int,
{
    match str_field(j, "type"@) {
        Some(tag) => match kind_of_tag(tag) {
            Some(k) => dec_rollup_item_payload(k, j),
            None => None,
        },
        None => None,
    }
}

pub open spec fn dec_rollup_item_payload(k: PropertyKind, j: Json) -> Option<
    RollupPropertyValueModel,
>
    decreases j, 0int,
{
    match k {
        PropertyKind::Title => None,
        PropertyKind::Button => None,
        PropertyKind::Text => match list_field::<RichText>(j, "rich_text"@) {
            Some(p) => Some(RollupPropertyValueModel::Text(p)),
            None => None,
        },
        PropertyKind::Number => match opt_number_field(j, "number"@) {
            Some(p) => Some(RollupPropertyValueModel::Number(p)),
            None => None,
        },
        PropertyKind::Select => match opt_codec_field::<SelectedValue>(j, "select"@) {
            Some(p) => Some(RollupPropertyValueModel::Select(p)),
            None => None,
        },
        PropertyKind::Status => match opt_codec_field::<SelectedValue>(j, "status"@) {
            Some(p) => Some(RollupPropertyValueModel::Status(p)),
            None => None,
        },
        PropertyKind::MultiSelect => match opt_list_field::<SelectedValue>(j, "multi_select"@) {
            Some(p) => Some(RollupPropertyValueModel::MultiSelect(p)),
            None => None,
        },
        PropertyKind::Date => match opt_codec_field::<DateValue>(j, "date"@) {
            Some(p) => Some(RollupPropertyValueModel::Date(p)),
            None => None,
        },
        PropertyKind::People => match list_field::<User>(j, "people"@) {
            Some(p) => Some(RollupPropertyValueModel::People(p)),
            None => None,
        },
        PropertyKind::Files => match opt_list_field::<FileReference>(j, "files"@) {
            Some(p) => Some(RollupPropertyValueModel::Files(p)),
            None => None,
        },
        PropertyKind::Checkbox => match bool_field(j, "checkbox"@) {
            Some(p) => Some(RollupPropertyValueModel::Checkbox(p)),
            None => None,
        },
        PropertyKind::Url => match opt_str_field(j, "url"@) {
            Some(p) => Some(RollupPropertyValueModel::Url(p)),
            None => None,
        },
        PropertyKind::Email => match opt_str_field(j, "email"@) {
            Some(p) => Some(RollupPropertyValueModel::Email(p)),
            None => None,
        },
        PropertyKind::PhoneNumber => match str_field(j, "phone_number"@) {
            Some(p) => Some(RollupPropertyValueModel::PhoneNumber(p)),
            None => None,
        },
        PropertyKind::Formula => match codec_field::<FormulaResultValue>(j, "formula"@) {
            Some(p) => Some(RollupPropertyValueModel::Formula(p)),
            None => None,
        },
        PropertyKind::Relation => match opt_list_field::<RelationValue>(j, "relation"@) {
            Some(p) => Some(RollupPropertyValueModel::Relation(p)),
            None => None,
        },
        PropertyKind::Rollup => match j.field("rollup"@) {
            None => Some(RollupPropertyValueModel::Rollup(None)),
            Some(Json::Null) => Some(RollupPropertyValueModel::Rollup(None)),
            Some(v) => {
                proof {
                    lemma_field_decreases(j, "rollup"@);
                }
                match dec_rollup_value(v) {
                    Some(r) => Some(RollupPropertyValueModel::Rollup(Some(r))),
                    None => None,
                }
            },
        },
        PropertyKind::CreatedTime => match codec_field::<Timestamp>(j, "created_time"@) {
            Some(p) => Some(RollupPropertyValueModel::CreatedTime(p)),
            None => None,
        },
        PropertyKind::CreatedBy => match codec_field::<User>(j, "created_by"@) {
            Some(p) => Some(RollupPropertyValueModel::CreatedBy(p)),
            None => None,
        },
        PropertyKind::LastEditedTime => match codec_field::<Timestamp>(j, "last_edited_time"@) {
            Some(p) => Some(RollupPropertyValueModel::LastEditedTime(p)),
            None => None,
        },
        PropertyKind::LastEditedBy => match codec_field::<User>(j, "last_edited_by"@) {
            Some(p) => Some(RollupPropertyValueModel::LastEditedBy(p)),
            None => None,
        },
    }
}

pub open spec fn rollup_value_in_range(m: RollupValueModel) -> bool
    decreases m,
{
    match m {
        RollupValueModel::Number(_) => true,
        RollupValueModel::Date(d) => opt_in_range::<Timestamp>(d),
        RollupValueModel::Array(items) => forall|i: int|
            0 <= i < items.len() ==> rollup_item_in_range(#[trigger] items[i]),
    }
}

pub open spec fn rollup_item_in_range(m: RollupPropertyValueModel) -> bool
    decreases m,
{
    match m {
        RollupPropertyValueModel::Text(p) => all_in_range::<RichText>(p),
        RollupPropertyValueModel::Number(p) => true,
        RollupPropertyValueModel::Select(p) => opt_in_range::<SelectedValue>(p),
        RollupPropertyValueModel::Status(p) => opt_in_range::<SelectedValue>(p),
        RollupPropertyValueModel::MultiSelect(p) => opt_all_in_range::<SelectedValue>(p),
        RollupPropertyValueModel::Date(p) => opt_in_range::<DateValue>(p),
        RollupPropertyValueModel::People(p) => all_in_range::<User>(p),
        RollupPropertyValueModel::Files(p) => opt_all_in_range::<FileReference>(p),
        RollupPropertyValueModel::Checkbox(p) => true,
        RollupPropertyValueModel::Url(p) => true,
        RollupPropertyValueModel::Email(p) => true,
        RollupPropertyValueModel::PhoneNumber(p) => true,
        RollupPropertyValueModel::Formula(p) => FormulaResultValue::in_range(p),
        RollupPropertyValueModel::Relation(p) => opt_all_in_range::<RelationValue>(p),
        RollupPropertyValueModel::Rollup(r) => match r {
            Some(v) => rollup_value_in_range(v),
            None => true,
        },
        RollupPropertyValueModel::CreatedTime(p) => Timestamp::in_range(p),
        RollupPropertyValueModel::CreatedBy(p) => User::in_range(p),
        RollupPropertyValueModel::LastEditedTime(p) => Timestamp::in_range(p),
        RollupPropertyValueModel::LastEditedBy(p) => User::in_range(p),
    }
}

impl RollupValue {
    /// The wire form of the rollup; reading it back gives the rollup when
    /// its instants have four-digit years.
    pub fn encode_value(&self) -> (r: JsonValue)
        ensures
            r@ == enc_rollup_value(self.model()),
            rollup_value_in_range(self.model()) ==> dec_rollup_value(r@) == Some(self.model()),
        decreases self,
    {
        proof {
            reveal_strlit("type");
            reveal_strlit("number");
            reveal_strlit("date");
            reveal_strlit("array");
            assert("type"@.len() == 4 && "number"@.len() == 6 && "date"@.len() == 4);
            assert("array"@.len() == 5 && "type"@[0] == 't' && "date"@[0] == 'd');
        }
        match self {
            RollupValue::Number { number } => {
                let p = number_or_null(number);
                proof {
                    lemma_tagged("number"@, p@);
                }
                tagged_object("number", p)
            },
            RollupValue::Date { date } => {
                let p = encode_opt(date);
                proof {
                    lemma_tagged("date"@, p@);
                }
                tagged_object("date", p)
            },
            RollupValue::Array { array } => {
                let mut out: Vec<JsonValue> = Vec::new();
                let mut i: usize = 0;
                let ghost model = self.model()->Array_0;
                while i < array.len()
                    invariant
                        i <= array.len(),
                        self is Array,
                        self->array == array,
                        model.len() == array@.len(),
                        forall|k: int| 0 <= k < array@.len() ==> model[k] == (#[trigger] array@[k]).model(),
                        forall|k: int|
                            0 <= k < i ==> rollup_item_in_range(model[k]) ==> dec_rollup_item(
                                (#[trigger] out@[k])@,
                            ) == Some(model[k]),
                        self.model() == RollupValueModel::Array(model),
                        out@.len() == i,
                        forall|k: int|
                            0 <= k < i ==> (#[trigger] out@[k])@ == enc_rollup_item(
                                array@[k].model(),
                            ),
                    decreases array.len() - i,
                {
                    proof {
                        assert(decreases_to!(self => self->array));
                        assert(decreases_to!(self->array => self->array@));
                        assert(decreases_to!(self->array@ => self->array@[i as int]));
                    }
                    let e = array[i].encode_item();
                    out.push(e);
                    i += 1;
                }
                let items = JsonValue::Array(out);
                let ghost js = items@->Array_0;
                assert(js =~= enc_rollup_value(self.model())->Object_0[1].1->Array_0);
                proof {
                    lemma_tagged("array"@, items@);
                    if rollup_value_in_range(self.model()) {
                        assert forall|k: int| 0 <= k < js.len() implies dec_rollup_item(
                            #[trigger] js[k],
                        ) == Some(model[k]) by {
                            assert(rollup_item_in_range(model[k]));
                            assert(js[k] == out@[k]@);
                        }
                        assert(dec_rollup_value(tagged("array"@, items@))->0->Array_0 =~= model);
                    }
                }
                tagged_object("array", items)
            },
        }
    }

    /// Reads a rollup from its wire form.
    pub fn decode_value(j: &JsonValue) -> (r: Option<RollupValue>)
        ensures
            r.deep_view() == dec_rollup_value(j@),
        decreases j@, 2int,
    {
        let tag = string_field(j, "type")?;
        if text_is(&tag, "number") {
            let number = optional_number_field(j, "number")?;
            Some(RollupValue::Number { number })
        } else if text_is(&tag, "date") {
            let date = decode_opt_field::<Timestamp>(j, "date")?;
            Some(RollupValue::Date { date })
        } else if text_is(&tag, "array") {
            let a = j.field("array")?;
            match a {
                JsonValue::Array(items) => {
                    proof {
                        lemma_field_decreases(j@, "array"@);
                    }
                    let ghost js = a@->Array_0;
                    proof {
                        reveal_strlit("number");
                        reveal_strlit("date");
                        reveal_strlit("array");
                        assert("number"@.len() == 6 && "date"@.len() == 4 && "array"@.len() == 5);
                    }
                    let ghost whole = dec_rollup_value(j@);
                    assert(whole is Some <==> (forall|k: int|
                        0 <= k < js.len() ==> dec_rollup_item(#[trigger] js[k]) is Some));
                    let mut out: Vec<RollupPropertyValue> = Vec::new();
                    let mut i: usize = 0;
                    while i < items.len()
                        invariant
                            i <= items.len(),
                            a@ == Json::Array(js),
                            j@.field("array"@) == Some(a@),
                            decreases_to!(j@ => a@),
                            js.len() == items@.len(),
                            forall|k: int| 0 <= k < items@.len() ==> js[k] == (#[trigger] items@[k])@,
                            out@.len() == i,
                            forall|k: int|
                                0 <= k < i ==> dec_rollup_item(js[k]) == Some(
                                    (#[trigger] out@[k]).model(),
                                ),
                            whole == dec_rollup_value(j@),
                            whole is Some <==> (forall|k: int|
                                0 <= k < js.len() ==> dec_rollup_item(#[trigger] js[k]) is Some),
                            whole is Some ==> whole->0 is Array && whole->0->Array_0.len() == js.len()
                                && forall|k: int| 0 <= k < js.len() ==> whole->0->Array_0[k] == dec_rollup_item(#[trigger] js[k])->0,
                        decreases items.len() - i,
                    {
                        proof {
                            assert(decreases_to!(a@ => a@->Array_0));
                            assert(decreases_to!(a@->Array_0 => a@->Array_0[i as int]));
                        }
                        match RollupPropertyValue::decode_item(&items[i]) {
                            Some(x) => {
                                out.push(x);
                            },
                            None => {
                                assert(dec_rollup_item(js[i as int]) is None);
                                return None;
                            },
                        }
                        i += 1;
                    }
                    let r = RollupValue::Array { array: out };
                    assert forall|k: int| 0 <= k < js.len() implies dec_rollup_item(#[trigger] js[k]) is Some by {
                        assert(dec_rollup_item(js[k]) == Some(out@[k].model()));
                    }
                    assert(r.model()->Array_0 =~= dec_rollup_value(j@)->0->Array_0);
                    Some(r)
                },
                _ => None,
            }
        } else {
            None
        }
    }
}

impl RollupPropertyValue {
    /// The kind of the element.
    pub fn kind(&self) -> (r: PropertyKind)
        ensures
            r == self.model().kind(),
    {
        match self {
            RollupPropertyValue::Text { .. } => PropertyKind::Text,
            RollupPropertyValue::Number { .. } => PropertyKind::Number,
            RollupPropertyValue::Select { .. } => PropertyKind::Select,
            RollupPropertyValue::Status { .. } => PropertyKind::Status,
            RollupPropertyValue::MultiSelect { .. } => PropertyKind::MultiSelect,
            RollupPropertyValue::Date { .. } => PropertyKind::Date,
            RollupPropertyValue::People { .. } => PropertyKind::People,
            RollupPropertyValue::Files { .. } => PropertyKind::Files,
            RollupPropertyValue::Checkbox { .. } => PropertyKind::Checkbox,
            RollupPropertyValue::Url { .. } => PropertyKind::Url,
            RollupPropertyValue::Email { .. } => PropertyKind::Email,
            RollupPropertyValue::PhoneNumber { .. } => PropertyKind::PhoneNumber,
            RollupPropertyValue::Formula { .. } => PropertyKind::Formula,
            RollupPropertyValue::Relation { .. } => PropertyKind::Relation,
            RollupPropertyValue::Rollup { .. } => PropertyKind::Rollup,
            RollupPropertyValue::CreatedTime { .. } => PropertyKind::CreatedTime,
            RollupPropertyValue::CreatedBy { .. } => PropertyKind::CreatedBy,
            RollupPropertyValue::LastEditedTime { .. } => PropertyKind::LastEditedTime,
            RollupPropertyValue::LastEditedBy { .. } => PropertyKind::LastEditedBy,
        }
    }

    /// The wire form of the element; reading it back gives the element when
    /// its dates and instants have four-digit years.
    pub fn encode_item(&self) -> (r: JsonValue)
        ensures
            r@ == enc_rollup_item(self.model()),
            rollup_item_in_range(self.model()) ==> dec_rollup_item(r@) == Some(self.model()),
        decreases self,
    {
        let kind = self.kind();
        proof {
            lemma_property_kind_names(kind);
            lemma_tags_not_type(kind);
        }
        match self {
            RollupPropertyValue::Text { rich_text } => {
                let p = encode_list(rich_text);
                proof {
                    lemma_tagged("rich_text"@, p@);
                }
                tagged_object("rich_text", p)
            },
            RollupPropertyValue::Number { number } => {
                let p = number_or_null(number);
                proof {
                    lemma_tagged("number"@, p@);
                }
                tagged_object("number", p)
            },
            RollupPropertyValue::Select { select } => {
                let p = encode_opt(select);
                proof {
                    lemma_tagged("select"@, p@);
                }
                tagged_object("select", p)
            },
            RollupPropertyValue::Status { status } => {
                let p = encode_opt(status);
                proof {
                    lemma_tagged("status"@, p@);
                }
                tagged_object("status", p)
            },
            RollupPropertyValue::MultiSelect { multi_select } => {
                let p = encode_opt_list(multi_select);
                proof {
                    lemma_tagged("multi_select"@, p@);
                }
                tagged_object("multi_select", p)
            },
            RollupPropertyValue::Date { date } => {
                let p = encode_opt(date);
                proof {
                    lemma_tagged("date"@, p@);
                }
                tagged_object("date", p)
            },
            RollupPropertyValue::People { people } => {
                let p = encode_list(people);
                proof {
                    lemma_tagged("people"@, p@);
                }
                tagged_object("people", p)
            },
            RollupPropertyValue::Files { files } => {
                let p = encode_opt_list(files);
                proof {
                    lemma_tagged("files"@, p@);
                }
                tagged_object("files", p)
            },
            RollupPropertyValue::Checkbox { checkbox } => {
                let p = JsonValue::Bool(*checkbox);
                proof {
                    lemma_tagged("checkbox"@, p@);
                }
                tagged_object("checkbox", p)
            },
            RollupPropertyValue::Url { url } => {
                let p = string_or_null(url);
                proof {
                    lemma_tagged("url"@, p@);
                }
                tagged_object("url", p)
            },
            RollupPropertyValue::Email { email } => {
                let p = string_or_null(email);
                proof {
                    lemma_tagged("email"@, p@);
                }
                tagged_object("email", p)
            },
            RollupPropertyValue::PhoneNumber { phone_number } => {
                let p = JsonValue::String(phone_number.clone());
                proof {
                    lemma_tagged("phone_number"@, p@);
                }
                tagged_object("phone_number", p)
            },
            RollupPropertyValue::Formula { formula } => {
                let p = formula.encode();
                proof {
                    lemma_tagged("formula"@, p@);
                }
                tagged_object("formula", p)
            },
            RollupPropertyValue::Relation { relation } => {
                let p = encode_opt_list(relation);
                proof {
                    lemma_tagged("relation"@, p@);
                }
                tagged_object("relation", p)
            },
            RollupPropertyValue::Rollup { rollup } => {
                let p = match rollup {
                    Some(v) => {
                        proof {
                            assert(decreases_to!(self => self->rollup));
                            assert(decreases_to!(self->rollup => self->rollup->0));
                        }
                        v.encode_value()
                    },
                    None => JsonValue::Null,
                };
                proof {
                    lemma_tagged("rollup"@, p@);
                }
                tagged_object("rollup", p)
            },
            RollupPropertyValue::CreatedTime { created_time } => {
                let p = created_time.encode();
                proof {
                    lemma_tagged("created_time"@, p@);
                }
                tagged_object("created_time", p)
            },
            RollupPropertyValue::CreatedBy { created_by } => {
                let p = created_by.encode();
                proof {
                    lemma_tagged("created_by"@, p@);
                }
                tagged_object("created_by", p)
            },
            RollupPropertyValue::LastEditedTime { last_edited_time } => {
                let p = last_edited_time.encode();
                proof {
                    lemma_tagged("last_edited_time"@, p@);
                }
                tagged_object("last_edited_time", p)
            },
            RollupPropertyValue::LastEditedBy { last_edited_by } => {
                let p = last_edited_by.encode();
                proof {
                    lemma_tagged("last_edited_by"@, p@);
                }
                tagged_object("last_edited_by", p)
            },
        }
    }

    /// Reads an element of a rollup array from its wire form.
    pub fn decode_item(j: &JsonValue) -> (r: Option<RollupPropertyValue>)
        ensures
            r.deep_view() == dec_rollup_item(j@),
        decreases j@, 1int,
    {
        let tag = string_field(j, "type")?;
        let kind = PropertyKind::from_wire_name(&tag)?;
        RollupPropertyValue::decode_item_payload(kind, j)
    }

    fn decode_item_payload(kind: PropertyKind, j: &JsonValue) -> (r: Option<RollupPropertyValue>)
        ensures
            r.deep_view() == dec_rollup_item_payload(kind, j@),
        decreases j@, 0int,
    {
        match kind {
            PropertyKind::Title => None,
            PropertyKind::Button => None,
            PropertyKind::Text => match decode_list_field::<RichText>(j, "rich_text") {
                Some(rich_text) => Some(RollupPropertyValue::Text { rich_text }),
                None => None,
            },
            PropertyKind::Number => match optional_number_field(j, "number") {
                Some(number) => Some(RollupPropertyValue::Number { number }),
                None => None,
            },
            PropertyKind::Select => match decode_opt_field::<SelectedValue>(j, "select") {
                Some(select) => Some(RollupPropertyValue::Select { select }),
                None => None,
            },
            PropertyKind::Status => match decode_opt_field::<SelectedValue>(j, "status") {
                Some(status) => Some(RollupPropertyValue::Status { status }),
                None => None,
            },
            PropertyKind::MultiSelect => match decode_opt_list_field::<SelectedValue>(j, "multi_select") {
                Some(multi_select) => Some(RollupPropertyValue::MultiSelect { multi_select }),
                None => None,
            },
            PropertyKind::Date => match decode_opt_field::<DateValue>(j, "date") {
                Some(date) => Some(RollupPropertyValue::Date { date }),
                None => None,
            },
            PropertyKind::People => match decode_list_field::<User>(j, "people") {
                Some(people) => Some(RollupPropertyValue::People { people }),
                None => None,
            },
            PropertyKind::Files => match decode_opt_list_field::<FileReference>(j, "files") {
                Some(files) => Some(RollupPropertyValue::Files { files }),
                None => None,
            },
            PropertyKind::Checkbox => match boolean_field(j, "checkbox") {
                Some(checkbox) => Some(RollupPropertyValue::Checkbox { checkbox }),
                None => None,
            },
            PropertyKind::Url => match optional_string_field(j, "url") {
                Some(url) => Some(RollupPropertyValue::Url { url }),
                None => None,
            },
            PropertyKind::Email => match optional_string_field(j, "email") {
                Some(email) => Some(RollupPropertyValue::Email { email }),
                None => None,
            },
            PropertyKind::PhoneNumber => match string_field(j, "phone_number") {
                Some(phone_number) => Some(RollupPropertyValue::PhoneNumber { phone_number }),
                None => None,
            },
            PropertyKind::Formula => match decode_field::<FormulaResultValue>(j, "formula") {
                Some(formula) => Some(RollupPropertyValue::Formula { formula }),
                None => None,
            },
            PropertyKind::Relation => match decode_opt_list_field::<RelationValue>(j, "relation") {
                Some(relation) => Some(RollupPropertyValue::Relation { relation }),
                None => None,
            },
            PropertyKind::Rollup => match j.field("rollup") {
                None => Some(RollupPropertyValue::Rollup { rollup: None }),
                Some(JsonValue::Null) => Some(RollupPropertyValue::Rollup { rollup: None }),
                Some(v) => {
                    proof {
                        lemma_field_decreases(j@, "rollup"@);
                    }
                    let rollup = RollupValue::decode_value(v)?;
                    Some(RollupPropertyValue::Rollup { rollup: Some(rollup) })
                },
            },
            PropertyKind::CreatedTime => match decode_field::<Timestamp>(j, "created_time") {
                Some(created_time) => Some(RollupPropertyValue::CreatedTime { created_time }),
                None => None,
            },
            PropertyKind::CreatedBy => match decode_field::<User>(j, "created_by") {
                Some(created_by) => Some(RollupPropertyValue::CreatedBy { created_by }),
                None => None,
            },
            PropertyKind::LastEditedTime => match decode_field::<Timestamp>(j, "last_edited_time") {
                Some(last_edited_time) => Some(RollupPropertyValue::LastEditedTime { last_edited_time }),
                None => None,
            },
            PropertyKind::LastEditedBy => match decode_field::<User>(j, "last_edited_by") {
                Some(last_edited_by) => Some(RollupPropertyValue::LastEditedBy { last_edited_by }),
                None => None,
            },
        }
    }
}

/// The wire form of a rollup is tagged by its kind.
impl Codec for RollupValue {
    open spec fn enc_spec(m: RollupValueModel) -> Json {
        enc_rollup_value(m)
    }

    open spec fn dec_spec(j: Json) -> Option<RollupValueModel> {
        dec_rollup_value(j)
    }

    open spec fn in_range(m: RollupValueModel) -> bool {
        rollup_value_in_range(m)
    }

    fn encode(&self) -> (r: JsonValue) {
        self.encode_value()
    }

    fn decode(j: &JsonValue) -> (r: Option<RollupValue>) {
        RollupValue::decode_value(j)
    }
}

} // verus!
