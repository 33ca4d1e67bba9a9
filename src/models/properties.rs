use vstd::prelude::*;

use crate::ids::PageId;
use crate::json::{
    lemma_member_missing,
    add_member, bool_or_null, boolean_or_null, lemma_member_at, lemma_tagged, new_members,
    opt_bool_field, optional_bool_field, tagged, tagged_object, object, opt_number_field, opt_str_field,
    optional_number_field, optional_string_field, num_or_null, number_or_null, read_str,
    str_field, str_or_null, string_field, string_or_null, text_is, Codec, Json, JsonValue, RoundTrip,
};
use crate::models::dates::{
    date_or_time_in_range,
    DateOrDateTime, DateOrDateTimeModel,
};

verus! {

/// The color of a select option.
#[derive(Clone, Copy, Debug, PartialEq, Eq)]
pub enum Color {
    Default,
    Gray,
    Brown,
    Orange,
    Yellow,
    Green,
    Blue,
    Purple,
    Pink,
    Red,
}

impl DeepView for Color {
    type V = Color;

    open spec fn deep_view(&self) -> Color {
        *self
    }
}

/// The wire name of each Color.
pub open spec fn color_name(x: Color) -> Seq<char> {
    match x {
        Color::Default => "default"@,
        Color::Gray => "gray"@,
        Color::Brown => "brown"@,
        Color::Orange => "orange"@,
        Color::Yellow => "yellow"@,
        Color::Green => "green"@,
        Color::Blue => "blue"@,
        Color::Purple => "purple"@,
        Color::Pink => "pink"@,
        Color::Red => "red"@,
    }
}

pub open spec fn color_of_name(s: Seq<char>) -> Option<Color> {
    if s == "default"@ {
        Some(Color::Default)
    } else if s == "gray"@ {
        Some(Color::Gray)
    } else if s == "brown"@ {
        Some(Color::Brown)
    } else if s == "orange"@ {
        Some(Color::Orange)
    } else if s == "yellow"@ {
        Some(Color::Yellow)
    } else if s == "green"@ {
        Some(Color::Green)
    } else if s == "blue"@ {
        Some(Color::Blue)
    } else if s == "purple"@ {
        Some(Color::Purple)
    } else if s == "pink"@ {
        Some(Color::Pink)
    } else if s == "red"@ {
        Some(Color::Red)
    } else {
        None
    }
}

/// Each Color reads back from its wire name.
pub proof fn lemma_color_names(x: Color)
    ensures
        color_of_name(color_name(x)) == Some(x),
{
    reveal_strlit("default");
    reveal_strlit("gray");
    reveal_strlit("brown");
    reveal_strlit("orange");
    reveal_strlit("yellow");
    reveal_strlit("green");
    reveal_strlit("blue");
    reveal_strlit("purple");
    reveal_strlit("pink");
    reveal_strlit("red");
    assert("default"@.len() == 7 && "gray"@.len() == 4 && "brown"@.len() == 5);
    assert("orange"@.len() == 6 && "yellow"@.len() == 6 && "green"@.len() == 5);
    assert("blue"@.len() == 4 && "purple"@.len() == 6 && "pink"@.len() == 4);
    assert("red"@.len() == 3 && "blue"@[0] == 'b' && "brown"@[0] == 'b');
    assert("gray"@[0] == 'g' && "green"@[0] == 'g' && "orange"@[0] == 'o');
    assert("pink"@[0] == 'p' && "purple"@[0] == 'p' && "yellow"@[0] == 'y');
}

impl Color {
    /// The wire name.
    pub fn wire_name(&self) -> (r: &'static str)
        ensures
            r@ == color_name(*self),
    {
        match self {
            Color::Default => "default",
            Color::Gray => "gray",
            Color::Brown => "brown",
            Color::Orange => "orange",
            Color::Yellow => "yellow",
            Color::Green => "green",
            Color::Blue => "blue",
            Color::Purple => "purple",
            Color::Pink => "pink",
            Color::Red => "red",
        }
    }

    /// The variant with the given wire name.
    pub fn from_wire_name(s: &String) -> (r: Option<Color>)
        ensures
            r == color_of_name(s@),
    {
        if text_is(s, "default") {
            Some(Color::Default)
        } else if text_is(s, "gray") {
            Some(Color::Gray)
        } else if text_is(s, "brown") {
            Some(Color::Brown)
        } else if text_is(s, "orange") {
            Some(Color::Orange)
        } else if text_is(s, "yellow") {
            Some(Color::Yellow)
        } else if text_is(s, "green") {
            Some(Color::Green)
        } else if text_is(s, "blue") {
            Some(Color::Blue)
        } else if text_is(s, "purple") {
            Some(Color::Purple)
        } else if text_is(s, "pink") {
            Some(Color::Pink)
        } else if text_is(s, "red") {
            Some(Color::Red)
        } else {
            None
        }
    }
}

/// The wire form is the wire name as a JSON string.
impl Codec for Color {
    open spec fn enc_spec(m: Color) -> Json {
        Json::Str(color_name(m))
    }

    open spec fn dec_spec(j: Json) -> Option<Color> {
        match read_str(j) {
            Some(s) => color_of_name(s),
            None => None,
        }
    }

    open spec fn in_range(m: Color) -> bool {
        true
    }

    fn encode(&self) -> (r: JsonValue) {
        proof {
            <Color as RoundTrip>::lemma_round_trip(self.deep_view());
        }
        JsonValue::String(self.wire_name().to_owned())
    }

    fn decode(j: &JsonValue) -> (r: Option<Color>) {
        match j {
            JsonValue::String(s) => Color::from_wire_name(s),
            _ => None,
        }
    }
}

impl RoundTrip for Color {
    proof fn lemma_round_trip(m: Color) {
        lemma_color_names(m);
    }
}

/// Identifies an option of a select, multi-select or status property.
#[derive(Clone, Debug, PartialEq, Eq, PartialOrd, Ord, Hash)]
pub struct SelectOptionId(pub String);

impl DeepView for SelectOptionId {
    type V = Seq<char>;

    open spec fn deep_view(&self) -> Seq<char> {
        self.0@
    }
}

impl SelectOptionId {
    pub fn as_str(&self) -> (r: &str)
        ensures
            r@ == self.deep_view(),
    {
        self.0.as_str()
    }
}

/// The wire form of an option id is a JSON string.
impl Codec for SelectOptionId {
    open spec fn enc_spec(m: Seq<char>) -> Json {
        Json::Str(m)
    }

    open spec fn dec_spec(j: Json) -> Option<Seq<char>> {
        read_str(j)
    }

    open spec fn in_range(m: Seq<char>) -> bool {
        true
    }

    fn encode(&self) -> (r: JsonValue) {
        proof {
            <SelectOptionId as RoundTrip>::lemma_round_trip(self.deep_view());
        }
        let s = self.0.clone();
        JsonValue::String(s)
    }

    fn decode(j: &JsonValue) -> (r: Option<SelectOptionId>) {
        match j {
            JsonValue::String(s) => Some(SelectOptionId(s.clone())),
            _ => None,
        }
    }
}

impl RoundTrip for SelectOptionId {
    proof fn lemma_round_trip(m: Seq<char>) {
    }
}

/// The option chosen in a select or status property; the service may leave
/// out any of its parts.
#[derive(Clone, Debug, PartialEq, Eq)]
pub struct SelectedValue {
    pub id: Option<SelectOptionId>,
    pub name: Option<String>,
    pub color: Option<Color>,
}

pub struct SelectedValueModel {
    pub id: Option<Seq<char>>,
    pub name: Option<Seq<char>>,
    pub color: Option<Color>,
}

impl DeepView for SelectedValue {
    type V = SelectedValueModel;

    open spec fn deep_view(&self) -> SelectedValueModel {
        SelectedValueModel {
            id: self.id.deep_view(),
            name: self.name.deep_view(),
            color: self.color,
        }
    }
}

/// The member `key: v` when `v` is present, and nothing otherwise.
pub open spec fn member_if(key: Seq<char>, v: Option<Json>) -> Seq<(Seq<char>, Json)> {
    match v {
        Some(x) => seq![(key, x)],
        None => seq![],
    }
}

/// The wire form of a chosen option: an object with only the parts that are
/// present.
pub open spec fn enc_selected(m: SelectedValueModel) -> Json {
    Json::Object(
        member_if(
            "id"@,
            match m.id {
                Some(x) => Some(Json::Str(x)),
                None => None,
            },
        ) + member_if(
            "name"@,
            match m.name {
                Some(x) => Some(Json::Str(x)),
                None => None,
            },
        ) + member_if(
            "color"@,
            match m.color {
                Some(c) => Some(Json::Str(color_name(c))),
                None => None,
            },
        ),
    )
}

/// Reading a chosen option: each part may be absent or `null`.
pub open spec fn dec_selected(j: Json) -> Option<SelectedValueModel> {
    match (j, opt_str_field(j, "id"@), opt_str_field(j, "name"@), j.field("color"@)) {
        (Json::Object(_), Some(id), Some(name), None) => Some(
            SelectedValueModel { id, name, color: None },
        ),
        (Json::Object(_), Some(id), Some(name), Some(Json::Null)) => Some(
            SelectedValueModel { id, name, color: None },
        ),
        (Json::Object(_), Some(id), Some(name), Some(c)) => match Color::dec_spec(c) {
            Some(color) => Some(SelectedValueModel { id, name, color: Some(color) }),
            None => None,
        },
        _ => None,
    }
}

/// Reading back the wire form of a chosen option gives it back.
pub proof fn lemma_selected_round_trip(m: SelectedValueModel)
    ensures
        dec_selected(enc_selected(m)) == Some(m),
{
    reveal_strlit("id");
    reveal_strlit("name");
    reveal_strlit("color");
    assert("id"@.len() == 2 && "name"@.len() == 4 && "color"@.len() == 5);
    let ms = enc_selected(m)->Object_0;
    let n_id: int = if m.id is Some { 1 } else { 0 };
    let n_name: int = if m.name is Some { 1 } else { 0 };
    if m.id is Some {
        lemma_member_at(ms, 0);
    } else {
        lemma_member_missing(ms, "id"@);
    }
    if m.name is Some {
        lemma_member_at(ms, n_id);
    } else {
        lemma_member_missing(ms, "name"@);
    }
    if m.color is Some {
        lemma_member_at(ms, n_id + n_name);
        lemma_color_names(m.color->0);
    } else {
        lemma_member_missing(ms, "color"@);
    }
}

/// An absent id or name of a chosen option leaves its member out of the wire
/// form (it is not written as `null`), and an object without those members
/// reads with them absent.
pub proof fn lemma_selected_omits_absent(m: SelectedValueModel, j: Json)
    ensures
        m.id is None ==> enc_selected(m).field("id"@) is None,
        m.name is None ==> enc_selected(m).field("name"@) is None,
        m.color is None ==> enc_selected(m).field("color"@) is None,
        j is Object && j.field("id"@) is None && dec_selected(j) is Some ==> dec_selected(j)->0.id
            is None,
        j is Object && j.field("name"@) is None && dec_selected(j) is Some ==> dec_selected(
            j,
        )->0.name is None,
        j is Object && j.field("id"@) is None && j.field("name"@) is None && j.field("color"@)
            is None ==> dec_selected(j) is Some,
{
    reveal_strlit("id");
    reveal_strlit("name");
    reveal_strlit("color");
    assert("id"@.len() == 2 && "name"@.len() == 4 && "color"@.len() == 5);
    let ms = enc_selected(m)->Object_0;
    if m.id is None {
        lemma_member_missing(ms, "id"@);
    }
    if m.name is None {
        lemma_member_missing(ms, "name"@);
    }
    if m.color is None {
        lemma_member_missing(ms, "color"@);
    }
}

/// The wire form of a chosen option leaves out the parts that are absent.
impl Codec for SelectedValue {
    open spec fn enc_spec(m: SelectedValueModel) -> Json {
        enc_selected(m)
    }

    open spec fn dec_spec(j: Json) -> Option<SelectedValueModel> {
        dec_selected(j)
    }

    open spec fn in_range(m: SelectedValueModel) -> bool {
        true
    }

    fn encode(&self) -> (r: JsonValue) {
        proof {
            <SelectedValue as RoundTrip>::lemma_round_trip(self.deep_view());
        }
        let mut ms = new_members();
        if let Some(id) = &self.id {
            add_member(&mut ms, "id", id.encode());
        }
        if let Some(name) = &self.name {
            add_member(&mut ms, "name", JsonValue::String(name.clone()));
        }
        if let Some(color) = &self.color {
            add_member(&mut ms, "color", color.encode());
        }
        let r = object(ms);
        assert(r@->Object_0 =~= enc_selected(self.deep_view())->Object_0);
        r
    }

    fn decode(j: &JsonValue) -> (r: Option<SelectedValue>) {
        match j {
            JsonValue::Object(_) => {
                let id = optional_string_field(j, "id")?;
                let name = optional_string_field(j, "name")?;
                let color = match j.field("color") {
                    None => None,
                    Some(JsonValue::Null) => None,
                    Some(c) => Some(Color::decode(c)?),
                };
                let id = match id {
                    Some(s) => Some(SelectOptionId(s)),
                    None => None,
                };
                Some(SelectedValue { id, name, color })
            },
            _ => None,
        }
    }
}

impl RoundTrip for SelectedValue {
    proof fn lemma_round_trip(m: SelectedValueModel) {
        lemma_selected_round_trip(m);
    }
}

/// A date property: a start, an optional end, and an optional time zone.
#[derive(Clone, Debug, PartialEq, Eq)]
pub struct DateValue {
    pub start: DateOrDateTime,
    pub end: Option<DateOrDateTime>,
    pub time_zone: Option<String>,
}

pub struct DateValueModel {
    pub start: DateOrDateTimeModel,
    pub end: Option<DateOrDateTimeModel>,
    pub time_zone: Option<Seq<char>>,
}

impl DeepView for DateValue {
    type V = DateValueModel;

    open spec fn deep_view(&self) -> DateValueModel {
        DateValueModel {
            start: self.start.deep_view(),
            end: self.end.deep_view(),
            time_zone: self.time_zone.deep_view(),
        }
    }
}

/// Whether the start and end of a date property have four-digit years.
pub open spec fn date_value_in_range(m: DateValueModel) -> bool {
    &&& date_or_time_in_range(m.start)
    &&& m.end matches Some(e) ==> date_or_time_in_range(e)
}

pub open spec fn enc_date_value(m: DateValueModel) -> Json {
    Json::Object(
        seq![
            ("start"@, DateOrDateTime::enc_spec(m.start)),
            (
                "end"@,
                match m.end {
                    Some(e) => DateOrDateTime::enc_spec(e),
                    None => Json::Null,
                },
            ),
            ("time_zone"@, str_or_null(m.time_zone)),
        ],
    )
}

pub open spec fn dec_date_value(j: Json) -> Option<DateValueModel> {
    match (j, j.field("start"@), opt_str_field(j, "time_zone"@)) {
        (Json::Object(_), Some(s), Some(time_zone)) => match DateOrDateTime::dec_spec(s) {
            Some(start) => match j.field("end"@) {
                None => Some(DateValueModel { start, end: None, time_zone }),
                Some(Json::Null) => Some(DateValueModel { start, end: None, time_zone }),
                Some(e) => match DateOrDateTime::dec_spec(e) {
                    Some(end) => Some(DateValueModel { start, end: Some(end), time_zone }),
                    None => None,
                },
            },
            None => None,
        },
        _ => None,
    }
}

/// Reading back the wire form of a date property gives it back when its
/// start and end read back.
pub proof fn lemma_date_value_round_trip(m: DateValueModel)
    requires
        DateOrDateTime::dec_spec(DateOrDateTime::enc_spec(m.start)) == Some(m.start),
        m.end matches Some(e) ==> DateOrDateTime::dec_spec(DateOrDateTime::enc_spec(e)) == Some(e),
    ensures
        dec_date_value(enc_date_value(m)) == Some(m),
{
    reveal_strlit("start");
    reveal_strlit("end");
    reveal_strlit("time_zone");
    assert("start"@.len() == 5 && "end"@.len() == 3 && "time_zone"@.len() == 9);
    let ms = enc_date_value(m)->Object_0;
    lemma_member_at(ms, 0);
    lemma_member_at(ms, 1);
    lemma_member_at(ms, 2);
}

impl Codec for DateValue {
    open spec fn enc_spec(m: DateValueModel) -> Json {
        enc_date_value(m)
    }

    open spec fn dec_spec(j: Json) -> Option<DateValueModel> {
        dec_date_value(j)
    }

    open spec fn in_range(m: DateValueModel) -> bool {
        date_value_in_range(m)
    }

    fn encode(&self) -> (r: JsonValue) {
        let mut ms = new_members();
        add_member(&mut ms, "start", self.start.encode());
        let end = match &self.end {
            Some(e) => e.encode(),
            None => JsonValue::Null,
        };
        add_member(&mut ms, "end", end);
        add_member(&mut ms, "time_zone", string_or_null(&self.time_zone));
        let r = object(ms);
        assert(r@->Object_0 =~= enc_date_value(self.deep_view())->Object_0);
        proof {
            if date_value_in_range(self.deep_view()) {
                lemma_date_value_round_trip(self.deep_view());
            }
        }
        r
    }

    fn decode(j: &JsonValue) -> (r: Option<DateValue>) {
        match j {
            JsonValue::Object(_) => {
                let start = DateOrDateTime::decode(j.field("start")?)?;
                let time_zone = optional_string_field(j, "time_zone")?;
                let end = match j.field("end") {
                    None => None,
                    Some(JsonValue::Null) => None,
                    Some(e) => Some(DateOrDateTime::decode(e)?),
                };
                Some(DateValue { start, end, time_zone })
            },
            _ => None,
        }
    }
}

/// The wire form of an optional date property: `null` when absent.
pub open spec fn enc_opt_date_value(d: Option<DateValueModel>) -> Json {
    match d {
        Some(v) => enc_date_value(v),
        None => Json::Null,
    }
}

/// Reading an optional date property under `key`.
pub open spec fn dec_opt_date_value(j: Json, key: Seq<char>) -> Option<Option<DateValueModel>> {
    match j.field(key) {
        None => Some(None),
        Some(Json::Null) => Some(None),
        Some(v) => match dec_date_value(v) {
            Some(d) => Some(Some(d)),
            None => None,
        },
    }
}

pub fn encode_opt_date_value(d: &Option<DateValue>) -> (r: JsonValue)
    ensures
        r@ == enc_opt_date_value(d.deep_view()),
        d is Some && date_value_in_range(d.deep_view()->0) ==> dec_date_value(r@) == d.deep_view(),
{
    match d {
        Some(v) => v.encode(),
        None => JsonValue::Null,
    }
}

pub fn decode_opt_date_value(j: &JsonValue, key: &str) -> (r: Option<Option<DateValue>>)
    ensures
        r.deep_view() == dec_opt_date_value(j@, key@),
{
    match j.field(key) {
        None => Some(None),
        Some(JsonValue::Null) => Some(None),
        Some(v) => match DateValue::decode(v) {
            Some(d) => Some(Some(d)),
            None => None,
        },
    }
}

/// The result of evaluating a formula.
#[derive(Clone, Debug, PartialEq, Eq)]
pub enum FormulaResultValue {
    String { string: Option<String> },
    Number { number: Option<serde_json::Number> },
    Boolean { boolean: Option<bool> },
    Date { date: Option<DateValue> },
}

pub enum FormulaResultModel {
    String(Option<Seq<char>>),
    Number(Option<serde_json::Number>),
    Boolean(Option<bool>),
    Date(Option<DateValueModel>),
}

impl DeepView for FormulaResultValue {
    type V = FormulaResultModel;

    open spec fn deep_view(&self) -> FormulaResultModel {
        match self {
            FormulaResultValue::String { string } => FormulaResultModel::String(string.deep_view()),
            FormulaResultValue::Number { number } => FormulaResultModel::Number(*number),
            FormulaResultValue::Boolean { boolean } => FormulaResultModel::Boolean(*boolean),
            FormulaResultValue::Date { date } => FormulaResultModel::Date(date.deep_view()),
        }
    }
}

pub open spec fn formula_in_range(m: FormulaResultModel) -> bool {
    m matches FormulaResultModel::Date(Some(d)) ==> date_value_in_range(d)
}

pub open spec fn enc_formula(m: FormulaResultModel) -> Json {
    match m {
        FormulaResultModel::String(s) => tagged("string"@, str_or_null(s)),
        FormulaResultModel::Number(n) => tagged("number"@, num_or_null(n)),
        FormulaResultModel::Boolean(b) => tagged("boolean"@, bool_or_null(b)),
        FormulaResultModel::Date(d) => tagged("date"@, enc_opt_date_value(d)),
    }
}

/// Reading a formula result: `type` says which kind; its value may be absent
/// or `null`.
pub open spec fn dec_formula(j: Json) -> Option<FormulaResultModel> {
    match str_field(j, "type"@) {
        Some(tag) => if tag == "string"@ {
            match opt_str_field(j, "string"@) {
                Some(s) => Some(FormulaResultModel::String(s)),
                None => None,
            }
        } else if tag == "number"@ {
            match opt_number_field(j, "number"@) {
                Some(n) => Some(FormulaResultModel::Number(n)),
                None => None,
            }
        } else if tag == "boolean"@ {
            match opt_bool_field(j, "boolean"@) {
                Some(b) => Some(FormulaResultModel::Boolean(b)),
                None => None,
            }
        } else if tag == "date"@ {
            match dec_opt_date_value(j, "date"@) {
                Some(d) => Some(FormulaResultModel::Date(d)),
                None => None,
            }
        } else {
            None
        },
        None => None,
    }
}

/// Reading back the wire form of a formula result gives it back when a date
/// in it reads back.
pub proof fn lemma_formula_round_trip(m: FormulaResultModel)
    requires
        m matches FormulaResultModel::Date(Some(d)) ==> dec_date_value(enc_date_value(d)) == Some(
            d,
        ),
    ensures
        dec_formula(enc_formula(m)) == Some(m),
{
    reveal_strlit("type");
    reveal_strlit("string");
    reveal_strlit("number");
    reveal_strlit("boolean");
    reveal_strlit("date");
    assert("type"@.len() == 4 && "string"@.len() == 6 && "number"@.len() == 6);
    assert("boolean"@.len() == 7 && "date"@.len() == 4 && "date"@[0] == 'd');
    assert("number"@[0] == 'n' && "string"@[0] == 's' && "type"@[0] == 't');
    match m {
        FormulaResultModel::String(s) => lemma_tagged("string"@, str_or_null(s)),
        FormulaResultModel::Number(n) => lemma_tagged("number"@, num_or_null(n)),
        FormulaResultModel::Boolean(b) => lemma_tagged("boolean"@, bool_or_null(b)),
        FormulaResultModel::Date(d) => {
            lemma_tagged("date"@, enc_opt_date_value(d));
        },
    }
}

impl Codec for FormulaResultValue {
    open spec fn enc_spec(m: FormulaResultModel) -> Json {
        enc_formula(m)
    }

    open spec fn dec_spec(j: Json) -> Option<FormulaResultModel> {
        dec_formula(j)
    }

    open spec fn in_range(m: FormulaResultModel) -> bool {
        formula_in_range(m)
    }

    fn encode(&self) -> (r: JsonValue) {
        let r = match self {
            FormulaResultValue::String { string } => tagged_object("string", string_or_null(string)),
            FormulaResultValue::Number { number } => tagged_object("number", number_or_null(number)),
            FormulaResultValue::Boolean { boolean } => tagged_object(
                "boolean",
                boolean_or_null(*boolean),
            ),
            FormulaResultValue::Date { date } => tagged_object("date", encode_opt_date_value(date)),
        };
        proof {
            if formula_in_range(self.deep_view()) {
                lemma_formula_round_trip(self.deep_view());
            }
        }
        r
    }

    fn decode(j: &JsonValue) -> (r: Option<FormulaResultValue>) {
        let tag = string_field(j, "type")?;
        if text_is(&tag, "string") {
            let string = optional_string_field(j, "string")?;
            Some(FormulaResultValue::String { string })
        } else if text_is(&tag, "number") {
            let number = optional_number_field(j, "number")?;
            Some(FormulaResultValue::Number { number })
        } else if text_is(&tag, "boolean") {
            let boolean = optional_bool_field(j, "boolean")?;
            Some(FormulaResultValue::Boolean { boolean })
        } else if text_is(&tag, "date") {
            let date = decode_opt_date_value(j, "date")?;
            Some(FormulaResultValue::Date { date })
        } else {
            None
        }
    }
}

/// A reference from a relation property to a page.
#[derive(Clone, Debug, PartialEq, Eq)]
pub struct RelationValue {
    pub id: PageId,
}

impl DeepView for RelationValue {
    type V = Seq<char>;

    open spec fn deep_view(&self) -> Seq<char> {
        self.id.deep_view()
    }
}

impl Codec for RelationValue {
    open spec fn enc_spec(m: Seq<char>) -> Json {
        Json::Object(seq![("id"@, Json::Str(m))])
    }

    open spec fn dec_spec(j: Json) -> Option<Seq<char>> {
        match j {
            Json::Object(_) => str_field(j, "id"@),
            _ => None,
        }
    }

    open spec fn in_range(m: Seq<char>) -> bool {
        true
    }

    fn encode(&self) -> (r: JsonValue) {
        proof {
            <RelationValue as RoundTrip>::lemma_round_trip(self.deep_view());
        }
        let mut ms = new_members();
        add_member(&mut ms, "id", self.id.encode());
        let r = object(ms);
        assert(r@->Object_0 =~= seq![("id"@, Json::Str(self.deep_view()))]);
        r
    }

    fn decode(j: &JsonValue) -> (r: Option<RelationValue>) {
        match j {
            JsonValue::Object(_) => {
                let id = string_field(j, "id")?;
                Some(RelationValue { id: PageId(id) })
            },
            _ => None,
        }
    }
}

impl RoundTrip for RelationValue {
    proof fn lemma_round_trip(m: Seq<char>) {
        lemma_relation_round_trip(m);
    }
}

pub proof fn lemma_relation_round_trip(m: Seq<char>)
    ensures
        RelationValue::dec_spec(RelationValue::enc_spec(m)) == Some(m),
{
    lemma_member_at(RelationValue::enc_spec(m)->Object_0, 0);
}

#[derive(Clone, Debug, PartialEq, Eq)]
pub struct External {
    pub url: String,
}

#[derive(Clone, Debug, PartialEq, Eq)]
pub struct File {
    pub url: String,
    pub expiry_time: String,
}

/// A file of a files property: a link to elsewhere, or a file that the
/// service hosts until it expires.
#[derive(Clone, Debug, PartialEq, Eq)]
pub enum FileReference {
    External { name: String, external: External },
    File { name: String, file: File },
}

pub enum FileReferenceModel {
    External { name: Seq<char>, url: Seq<char> },
    File { name: Seq<char>, url: Seq<char>, expiry_time: Seq<char> },
}

impl DeepView for FileReference {
    type V = FileReferenceModel;

    open spec fn deep_view(&self) -> FileReferenceModel {
        match self {
            FileReference::External { name, external } => FileReferenceModel::External {
                name: name@,
                url: external.url@,
            },
            FileReference::File { name, file } => FileReferenceModel::File {
                name: name@,
                url: file.url@,
                expiry_time: file.expiry_time@,
            },
        }
    }
}

pub open spec fn enc_file(m: FileReferenceModel) -> Json {
    match m {
        FileReferenceModel::External { name, url } => Json::Object(
            seq![
                ("type"@, Json::Str("external"@)),
                ("name"@, Json::Str(name)),
                ("external"@, Json::Object(seq![("url"@, Json::Str(url))])),
            ],
        ),
        FileReferenceModel::File { name, url, expiry_time } => Json::Object(
            seq![
                ("type"@, Json::Str("file"@)),
                ("name"@, Json::Str(name)),
                (
                    "file"@,
                    Json::Object(
                        seq![("url"@, Json::Str(url)), ("expiry_time"@, Json::Str(expiry_time))],
                    ),
                ),
            ],
        ),
    }
}

pub open spec fn dec_file(j: Json) -> Option<FileReferenceModel> {
    match (str_field(j, "type"@), str_field(j, "name"@)) {
        (Some(tag), Some(name)) => if tag == "external"@ {
            match j.field("external"@) {
                Some(e) => match str_field(e, "url"@) {
                    Some(url) => Some(FileReferenceModel::External { name, url }),
                    None => None,
                },
                None => None,
            }
        } else if tag == "file"@ {
            match j.field("file"@) {
                Some(f) => match (str_field(f, "url"@), str_field(f, "expiry_time"@)) {
                    (Some(url), Some(expiry_time)) => Some(
                        FileReferenceModel::File { name, url, expiry_time },
                    ),
                    _ => None,
                },
                None => None,
            }
        } else {
            None
        },
        _ => None,
    }
}

pub proof fn lemma_file_round_trip(m: FileReferenceModel)
    ensures
        dec_file(enc_file(m)) == Some(m),
{
    reveal_strlit("type");
    reveal_strlit("name");
    reveal_strlit("external");
    reveal_strlit("file");
    reveal_strlit("url");
    reveal_strlit("expiry_time");
    assert("type"@.len() == 4 && "name"@.len() == 4 && "external"@.len() == 8);
    assert("file"@.len() == 4 && "url"@.len() == 3 && "expiry_time"@.len() == 11);
    assert("file"@[0] == 'f' && "name"@[0] == 'n' && "type"@[0] == 't');
    let ms = enc_file(m)->Object_0;
    lemma_member_at(ms, 0);
    lemma_member_at(ms, 1);
    lemma_member_at(ms, 2);
    lemma_member_at(ms[2].1->Object_0, 0);
    if m is File {
        lemma_member_at(ms[2].1->Object_0, 1);
    }
}

impl Codec for FileReference {
    open spec fn enc_spec(m: FileReferenceModel) -> Json {
        enc_file(m)
    }

    open spec fn dec_spec(j: Json) -> Option<FileReferenceModel> {
        dec_file(j)
    }

    open spec fn in_range(m: FileReferenceModel) -> bool {
        true
    }

    fn encode(&self) -> (r: JsonValue) {
        proof {
            <FileReference as RoundTrip>::lemma_round_trip(self.deep_view());
        }
        let mut ms = new_members();
        match self {
            FileReference::External { name, external } => {
                let mut inner = new_members();
                add_member(&mut inner, "url", JsonValue::String(external.url.clone()));
                add_member(&mut ms, "type", JsonValue::String("external".to_owned()));
                add_member(&mut ms, "name", JsonValue::String(name.clone()));
                let i = object(inner);
                assert(i@->Object_0 =~= seq![("url"@, Json::Str(external.url@))]);
                add_member(&mut ms, "external", i);
            },
            FileReference::File { name, file } => {
                let mut inner = new_members();
                add_member(&mut inner, "url", JsonValue::String(file.url.clone()));
                add_member(&mut inner, "expiry_time", JsonValue::String(file.expiry_time.clone()));
                add_member(&mut ms, "type", JsonValue::String("file".to_owned()));
                add_member(&mut ms, "name", JsonValue::String(name.clone()));
                let i = object(inner);
                assert(i@->Object_0 =~= seq![
                    ("url"@, Json::Str(file.url@)),
                    ("expiry_time"@, Json::Str(file.expiry_time@)),
                ]);
                add_member(&mut ms, "file", i);
            },
        }
        let r = object(ms);
        assert(r@->Object_0 =~= enc_file(self.deep_view())->Object_0);
        r
    }

    fn decode(j: &JsonValue) -> (r: Option<FileReference>) {
        let tag = string_field(j, "type")?;
        let name = string_field(j, "name")?;
        if text_is(&tag, "external") {
            let url = string_field(j.field("external")?, "url")?;
            Some(FileReference::External { name, external: External { url } })
        } else if text_is(&tag, "file") {
            let f = j.field("file")?;
            let url = string_field(f, "url")?;
            let expiry_time = string_field(f, "expiry_time")?;
            Some(FileReference::File { name, file: File { url, expiry_time } })
        } else {
            None
        }
    }
}

impl RoundTrip for FileReference {
    proof fn lemma_round_trip(m: FileReferenceModel) {
        lemma_file_round_trip(m);
    }
}

} // verus!
