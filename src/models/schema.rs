use vstd::prelude::*;

use crate::ids::{DatabaseId, PropertyId};
use crate::json::{
    add_member, all_in_range, codec_field, decode_field, decode_list_field, decode_opt_field,
    enc_list, enc_opt, encode_list, encode_opt, lemma_field_round_trip,
    lemma_list_field_round_trip, lemma_member_at, lemma_opt_field_round_trip, lemma_tagged,
    list_field, new_members, object, opt_codec_field, opt_in_range, opt_str_field,
    optional_string_field, read_str, str_field, str_or_null, string_field, string_or_null,
    string_value, tagged, tagged_object, text_is, Codec, DecodeError, Json, JsonValue, RoundTrip,
};
use crate::models::properties::{Color, SelectOptionId};
use crate::models::values::{kind_of_tag, lemma_property_kind_names, lemma_tags_not_type, wire_tag, PropertyKind};

verus! {

/// How a number property is displayed.
#[derive(Clone, Copy, Debug, PartialEq, Eq, Hash)]
pub enum NumberFormat {
    Number,
    NumberWithCommas,
    Percent,
    Dollar,
    Euro,
    Pound,
    Yen,
    Ruble,
    Rupee,
    Won,
    Yuan,
}

impl DeepView for NumberFormat {
    type V = NumberFormat;

    open spec fn deep_view(&self) -> NumberFormat {
        *self
    }
}

/// The wire name of each NumberFormat.
pub open spec fn number_format_name(x: NumberFormat) -> Seq<char> {
    match x {
        NumberFormat::Number => "number"@,
        NumberFormat::NumberWithCommas => "number_with_commas"@,
        NumberFormat::Percent => "percent"@,
        NumberFormat::Dollar => "dollar"@,
        NumberFormat::Euro => "euro"@,
        NumberFormat::Pound => "pound"@,
        NumberFormat::Yen => "yen"@,
        NumberFormat::Ruble => "ruble"@,
        NumberFormat::Rupee => "rupee"@,
        NumberFormat::Won => "won"@,
        NumberFormat::Yuan => "yuan"@,
    }
}

pub open spec fn number_format_of_name(s: Seq<char>) -> Option<NumberFormat> {
    if s == "number"@ {
        Some(NumberFormat::Number)
    } else if s == "number_with_commas"@ {
        Some(NumberFormat::NumberWithCommas)
    } else if s == "percent"@ {
        Some(NumberFormat::Percent)
    } else if s == "dollar"@ {
        Some(NumberFormat::Dollar)
    } else if s == "euro"@ {
        Some(NumberFormat::Euro)
    } else if s == "pound"@ {
        Some(NumberFormat::Pound)
    } else if s == "yen"@ {
        Some(NumberFormat::Yen)
    } else if s == "ruble"@ {
        Some(NumberFormat::Ruble)
    } else if s == "rupee"@ {
        Some(NumberFormat::Rupee)
    } else if s == "won"@ {
        Some(NumberFormat::Won)
    } else if s == "yuan"@ {
        Some(NumberFormat::Yuan)
    } else {
        None
    }
}

/// Each NumberFormat reads back from its wire name.
pub proof fn lemma_number_format_names(x: NumberFormat)
    ensures
        number_format_of_name(number_format_name(x)) == Some(x),
{
    reveal_strlit("number");
    reveal_strlit("number_with_commas");
    reveal_strlit("percent");
    reveal_strlit("dollar");
    reveal_strlit("euro");
    reveal_strlit("pound");
    reveal_strlit("yen");
    reveal_strlit("ruble");
    reveal_strlit("rupee");
    reveal_strlit("won");
    reveal_strlit("yuan");
    assert("number"@.len() == 6 && "number_with_commas"@.len() == 18 && "percent"@.len() == 7);
    assert("dollar"@.len() == 6 && "euro"@.len() == 4 && "pound"@.len() == 5);
    assert("yen"@.len() == 3 && "ruble"@.len() == 5 && "rupee"@.len() == 5);
    assert("won"@.len() == 3 && "yuan"@.len() == 4 && "dollar"@[0] == 'd');
    assert("euro"@[0] == 'e' && "number"@[0] == 'n' && "pound"@[0] == 'p');
    assert("ruble"@[0] == 'r' && "ruble"@[2] == 'b' && "rupee"@[0] == 'r');
    assert("rupee"@[2] == 'p' && "won"@[0] == 'w' && "yen"@[0] == 'y');
    assert("yuan"@[0] == 'y');
}

impl NumberFormat {
    /// The wire name.
    pub fn wire_name(&self) -> (r: &'static str)
        ensures
            r@ == number_format_name(*self),
    {
        match self {
            NumberFormat::Number => "number",
            NumberFormat::NumberWithCommas => "number_with_commas",
            NumberFormat::Percent => "percent",
            NumberFormat::Dollar => "dollar",
            NumberFormat::Euro => "euro",
            NumberFormat::Pound => "pound",
            NumberFormat::Yen => "yen",
            NumberFormat::Ruble => "ruble",
            NumberFormat::Rupee => "rupee",
            NumberFormat::Won => "won",
            NumberFormat::Yuan => "yuan",
        }
    }

    /// The variant with the given wire name.
    pub fn from_wire_name(s: &String) -> (r: Option<NumberFormat>)
        ensures
            r == number_format_of_name(s@),
    {
        if text_is(s, "number") {
            Some(NumberFormat::Number)
        } else if text_is(s, "number_with_commas") {
            Some(NumberFormat::NumberWithCommas)
        } else if text_is(s, "percent") {
            Some(NumberFormat::Percent)
        } else if text_is(s, "dollar") {
            Some(NumberFormat::Dollar)
        } else if text_is(s, "euro") {
            Some(NumberFormat::Euro)
        } else if text_is(s, "pound") {
            Some(NumberFormat::Pound)
        } else if text_is(s, "yen") {
            Some(NumberFormat::Yen)
        } else if text_is(s, "ruble") {
            Some(NumberFormat::Ruble)
        } else if text_is(s, "rupee") {
            Some(NumberFormat::Rupee)
        } else if text_is(s, "won") {
            Some(NumberFormat::Won)
        } else if text_is(s, "yuan") {
            Some(NumberFormat::Yuan)
        } else {
            None
        }
    }
}

/// The wire form is the wire name as a JSON string.
impl Codec for NumberFormat {
    open spec fn enc_spec(m: NumberFormat) -> Json {
        Json::Str(number_format_name(m))
    }

    open spec fn dec_spec(j: Json) -> Option<NumberFormat> {
        match read_str(j) {
            Some(s) => number_format_of_name(s),
            None => None,
        }
    }

    open spec fn in_range(m: NumberFormat) -> bool {
        true
    }

    fn encode(&self) -> (r: JsonValue) {
        proof {
            lemma_number_format_names(*self);
        }
        JsonValue::String(self.wire_name().to_owned())
    }

    fn decode(j: &JsonValue) -> (r: Option<NumberFormat>) {
        match j {
            JsonValue::String(s) => NumberFormat::from_wire_name(s),
            _ => None,
        }
    }
}

impl RoundTrip for NumberFormat {
    proof fn lemma_round_trip(m: NumberFormat) {
        lemma_number_format_names(m);
    }
}

/// The function that a rollup evaluates over the pages of its relation.
#[derive(Clone, Copy, Debug, PartialEq, Eq)]
pub enum RollupFunction {
    Average,
    Checked,
    Count,
    CountPerGroup,
    CountValues,
    DateRange,
    EarliestDate,
    Empty,
    LatestDate,
    Max,
    Median,
    Min,
    NotEmpty,
    PercentChecked,
    PercentEmpty,
    PercentNotEmpty,
    PercentPerGroup,
    PercentUnchecked,
    Range,
    ShowOriginal,
    ShowUnique,
    Sum,
    Unchecked,
    Unique,
}

impl DeepView for RollupFunction {
    type V = RollupFunction;

    open spec fn deep_view(&self) -> RollupFunction {
        *self
    }
}

/// The wire name of each RollupFunction.
pub open spec fn rollup_function_name(x: RollupFunction) -> Seq<char> {
    match x {
        RollupFunction::Average => "average"@,
        RollupFunction::Checked => "checked"@,
        RollupFunction::Count => "count"@,
        RollupFunction::CountPerGroup => "count_per_group"@,
        RollupFunction::CountValues => "count_values"@,
        RollupFunction::DateRange => "date_range"@,
        RollupFunction::EarliestDate => "earliest_date"@,
        RollupFunction::Empty => "empty"@,
        RollupFunction::LatestDate => "latest_date"@,
        RollupFunction::Max => "max"@,
        RollupFunction::Median => "median"@,
        RollupFunction::Min => "min"@,
        RollupFunction::NotEmpty => "not_empty"@,
        RollupFunction::PercentChecked => "percent_checked"@,
        RollupFunction::PercentEmpty => "percent_empty"@,
        RollupFunction::PercentNotEmpty => "percent_not_empty"@,
        RollupFunction::PercentPerGroup => "percent_per_group"@,
        RollupFunction::PercentUnchecked => "percent_unchecked"@,
        RollupFunction::Range => "range"@,
        RollupFunction::ShowOriginal => "show_original"@,
        RollupFunction::ShowUnique => "show_unique"@,
        RollupFunction::Sum => "sum"@,
        RollupFunction::Unchecked => "unchecked"@,
        RollupFunction::Unique => "unique"@,
    }
}

pub open spec fn rollup_function_of_name(s: Seq<char>) -> Option<RollupFunction> {
    if s == "average"@ {
        Some(RollupFunction::Average)
    } else if s == "checked"@ {
        Some(RollupFunction::Checked)
    } else if s == "count"@ {
        Some(RollupFunction::Count)
    } else if s == "count_per_group"@ {
        Some(RollupFunction::CountPerGroup)
    } else if s == "count_values"@ {
        Some(RollupFunction::CountValues)
    } else if s == "date_range"@ {
        Some(RollupFunction::DateRange)
    } else if s == "earliest_date"@ {
        Some(RollupFunction::EarliestDate)
    } else if s == "empty"@ {
        Some(RollupFunction::Empty)
    } else if s == "latest_date"@ {
        Some(RollupFunction::LatestDate)
    } else if s == "max"@ {
        Some(RollupFunction::Max)
    } else if s == "median"@ {
        Some(RollupFunction::Median)
    } else if s == "min"@ {
        Some(RollupFunction::Min)
    } else if s == "not_empty"@ {
        Some(RollupFunction::NotEmpty)
    } else if s == "percent_checked"@ {
        Some(RollupFunction::PercentChecked)
    } else if s == "percent_empty"@ {
        Some(RollupFunction::PercentEmpty)
    } else if s == "percent_not_empty"@ {
        Some(RollupFunction::PercentNotEmpty)
    } else if s == "percent_per_group"@ {
        Some(RollupFunction::PercentPerGroup)
    } else if s == "percent_unchecked"@ {
        Some(RollupFunction::PercentUnchecked)
    } else if s == "range"@ {
        Some(RollupFunction::Range)
    } else if s == "show_original"@ {
        Some(RollupFunction::ShowOriginal)
    } else if s == "show_unique"@ {
        Some(RollupFunction::ShowUnique)
    } else if s == "sum"@ {
        Some(RollupFunction::Sum)
    } else if s == "unchecked"@ {
        Some(RollupFunction::Unchecked)
    } else if s == "unique"@ {
        Some(RollupFunction::Unique)
    } else {
        None
    }
}

/// Each RollupFunction reads back from its wire name.
pub proof fn lemma_rollup_function_names(x: RollupFunction)
    ensures
        rollup_function_of_name(rollup_function_name(x)) == Some(x),
{
    reveal_strlit("average");
    reveal_strlit("checked");
    reveal_strlit("count");
    reveal_strlit("count_per_group");
    reveal_strlit("count_values");
    reveal_strlit("date_range");
    reveal_strlit("earliest_date");
    reveal_strlit("empty");
    reveal_strlit("latest_date");
    reveal_strlit("max");
    reveal_strlit("median");
    reveal_strlit("min");
    reveal_strlit("not_empty");
    reveal_strlit("percent_checked");
    reveal_strlit("percent_empty");
    reveal_strlit("percent_not_empty");
    reveal_strlit("percent_per_group");
    reveal_strlit("percent_unchecked");
    reveal_strlit("range");
    reveal_strlit("show_original");
    reveal_strlit("show_unique");
    reveal_strlit("sum");
    reveal_strlit("unchecked");
    reveal_strlit("unique");
    assert("average"@.len() == 7 && "checked"@.len() == 7 && "count"@.len() == 5);
    assert("count_per_group"@.len() == 15 && "count_values"@.len() == 12 && "date_range"@.len() == 10);
    assert("earliest_date"@.len() == 13 && "empty"@.len() == 5 && "latest_date"@.len() == 11);
    assert("max"@.len() == 3 && "median"@.len() == 6 && "min"@.len() == 3);
    assert("not_empty"@.len() == 9 && "percent_checked"@.len() == 15 && "percent_empty"@.len() == 13);
    assert("percent_not_empty"@.len() == 17 && "percent_per_group"@.len() == 17 && "percent_unchecked"@.len() == 17);
    assert("range"@.len() == 5 && "show_original"@.len() == 13 && "show_unique"@.len() == 11);
    assert("sum"@.len() == 3 && "unchecked"@.len() == 9 && "unique"@.len() == 6);
    assert("average"@[0] == 'a' && "checked"@[0] == 'c' && "count"@[0] == 'c');
    assert("count_per_group"@[0] == 'c' && "earliest_date"@[0] == 'e' && "empty"@[0] == 'e');
    assert("latest_date"@[0] == 'l' && "max"@[0] == 'm' && "max"@[1] == 'a');
    assert("median"@[0] == 'm' && "min"@[0] == 'm' && "min"@[1] == 'i');
    assert("not_empty"@[0] == 'n' && "percent_checked"@[0] == 'p' && "percent_empty"@[0] == 'p');
    assert("percent_not_empty"@[8] == 'n' && "percent_per_group"@[8] == 'p' && "percent_unchecked"@[8] == 'u');
    assert("range"@[0] == 'r' && "show_original"@[0] == 's' && "show_unique"@[0] == 's');
    assert("sum"@[0] == 's' && "unchecked"@[0] == 'u' && "unique"@[0] == 'u');
}

impl RollupFunction {
    /// The wire name.
    pub fn wire_name(&self) -> (r: &'static str)
        ensures
            r@ == rollup_function_name(*self),
    {
        match self {
            RollupFunction::Average => "average",
            RollupFunction::Checked => "checked",
            RollupFunction::Count => "count",
            RollupFunction::CountPerGroup => "count_per_group",
            RollupFunction::CountValues => "count_values",
            RollupFunction::DateRange => "date_range",
            RollupFunction::EarliestDate => "earliest_date",
            RollupFunction::Empty => "empty",
            RollupFunction::LatestDate => "latest_date",
            RollupFunction::Max => "max",
            RollupFunction::Median => "median",
            RollupFunction::Min => "min",
            RollupFunction::NotEmpty => "not_empty",
            RollupFunction::PercentChecked => "percent_checked",
            RollupFunction::PercentEmpty => "percent_empty",
            RollupFunction::PercentNotEmpty => "percent_not_empty",
            RollupFunction::PercentPerGroup => "percent_per_group",
            RollupFunction::PercentUnchecked => "percent_unchecked",
            RollupFunction::Range => "range",
            RollupFunction::ShowOriginal => "show_original",
            RollupFunction::ShowUnique => "show_unique",
            RollupFunction::Sum => "sum",
            RollupFunction::Unchecked => "unchecked",
            RollupFunction::Unique => "unique",
        }
    }

    /// The variant with the given wire name.
    pub fn from_wire_name(s: &String) -> (r: Option<RollupFunction>)
        ensures
            r == rollup_function_of_name(s@),
    {
        if text_is(s, "average") {
            Some(RollupFunction::Average)
        } else if text_is(s, "checked") {
            Some(RollupFunction::Checked)
        } else if text_is(s, "count") {
            Some(RollupFunction::Count)
        } else if text_is(s, "count_per_group") {
            Some(RollupFunction::CountPerGroup)
        } else if text_is(s, "count_values") {
            Some(RollupFunction::CountValues)
        } else if text_is(s, "date_range") {
            Some(RollupFunction::DateRange)
        } else if text_is(s, "earliest_date") {
            Some(RollupFunction::EarliestDate)
        } else if text_is(s, "empty") {
            Some(RollupFunction::Empty)
        } else if text_is(s, "latest_date") {
            Some(RollupFunction::LatestDate)
        } else if text_is(s, "max") {
            Some(RollupFunction::Max)
        } else if text_is(s, "median") {
            Some(RollupFunction::Median)
        } else if text_is(s, "min") {
            Some(RollupFunction::Min)
        } else if text_is(s, "not_empty") {
            Some(RollupFunction::NotEmpty)
        } else if text_is(s, "percent_checked") {
            Some(RollupFunction::PercentChecked)
        } else if text_is(s, "percent_empty") {
            Some(RollupFunction::PercentEmpty)
        } else if text_is(s, "percent_not_empty") {
            Some(RollupFunction::PercentNotEmpty)
        } else if text_is(s, "percent_per_group") {
            Some(RollupFunction::PercentPerGroup)
        } else if text_is(s, "percent_unchecked") {
            Some(RollupFunction::PercentUnchecked)
        } else if text_is(s, "range") {
            Some(RollupFunction::Range)
        } else if text_is(s, "show_original") {
            Some(RollupFunction::ShowOriginal)
        } else if text_is(s, "show_unique") {
            Some(RollupFunction::ShowUnique)
        } else if text_is(s, "sum") {
            Some(RollupFunction::Sum)
        } else if text_is(s, "unchecked") {
            Some(RollupFunction::Unchecked)
        } else if text_is(s, "unique") {
            Some(RollupFunction::Unique)
        } else {
            None
        }
    }
}

/// The wire form is the wire name as a JSON string.
impl Codec for RollupFunction {
    open spec fn enc_spec(m: RollupFunction) -> Json {
        Json::Str(rollup_function_name(m))
    }

    open spec fn dec_spec(j: Json) -> Option<RollupFunction> {
        match read_str(j) {
            Some(s) => rollup_function_of_name(s),
            None => None,
        }
    }

    open spec fn in_range(m: RollupFunction) -> bool {
        true
    }

    fn encode(&self) -> (r: JsonValue) {
        proof {
            lemma_rollup_function_names(*self);
        }
        JsonValue::String(self.wire_name().to_owned())
    }

    fn decode(j: &JsonValue) -> (r: Option<RollupFunction>) {
        match j {
            JsonValue::String(s) => RollupFunction::from_wire_name(s),
            _ => None,
        }
    }
}

impl RoundTrip for RollupFunction {
    proof fn lemma_round_trip(m: RollupFunction) {
        lemma_rollup_function_names(m);
    }
}

/// The schema of a number property.
#[derive(Clone, Debug, PartialEq, Eq)]
pub struct NumberDetails {
    pub format: NumberFormat,
}

impl DeepView for NumberDetails {
    type V = NumberFormat;

    open spec fn deep_view(&self) -> NumberFormat {
        self.format.deep_view()
    }
}

/// Reading back the wire form of a NumberDetails gives it back.
proof fn lemma_number_details_round_trip(m: NumberFormat)
    ensures
        <NumberDetails as Codec>::dec_spec(<NumberDetails as Codec>::enc_spec(m)) == Some(m),
{

    let j = <NumberDetails as Codec>::enc_spec(m);
    lemma_member_at(j->Object_0, 0);
    lemma_field_round_trip::<NumberFormat>(j, "format"@, m);
}

impl Codec for NumberDetails {
    open spec fn enc_spec(m: NumberFormat) -> Json {
        Json::Object(
            seq![
                ("format"@, NumberFormat::enc_spec(m)),
            ],
        )
    }

    open spec fn dec_spec(j: Json) -> Option<NumberFormat> {
        match j {
            Json::Object(_) => {
                match codec_field::<NumberFormat>(j, "format"@) {
                    Some(format) => {
                        Some(format)
                    },
                    None => None,
                }
            },
            _ => None,
        }
    }

    open spec fn in_range(m: NumberFormat) -> bool {
        true
    }

    fn encode(&self) -> (r: JsonValue) {
        proof {
            lemma_number_details_round_trip(self.deep_view());
        }
        let mut ms = new_members();
        add_member(&mut ms, "format", self.format.encode());
        let r = object(ms);
        assert(r@->Object_0 =~= Self::enc_spec(self.deep_view())->Object_0);
        r
    }

    fn decode(j: &JsonValue) -> (r: Option<NumberDetails>) {
        match j {
            JsonValue::Object(_) => {
                let format = decode_field::<NumberFormat>(j, "format")?;
                Some(NumberDetails { format })
            },
            _ => None,
        }
    }
}

impl RoundTrip for NumberDetails {
    proof fn lemma_round_trip(m: NumberFormat) {
        lemma_number_details_round_trip(m);
    }
}

/// An option of a select, multi-select or status property.
#[derive(Clone, Debug, PartialEq, Eq)]
pub struct SelectOption {
    pub name: String,
    pub id: SelectOptionId,
    pub color: Color,
}

pub struct SelectOptionModel {
    pub name: Seq<char>,
    pub id: Seq<char>,
    pub color: Color,
}

impl DeepView for SelectOption {
    type V = SelectOptionModel;

    open spec fn deep_view(&self) -> SelectOptionModel {
        SelectOptionModel {
            name: self.name@,
            id: self.id.deep_view(),
            color: self.color.deep_view(),
        }
    }
}

/// Reading back the wire form of a SelectOption gives it back.
proof fn lemma_select_option_round_trip(m: SelectOptionModel)
    ensures
        <SelectOption as Codec>::dec_spec(<SelectOption as Codec>::enc_spec(m)) == Some(m),
{
    reveal_strlit("name");
    reveal_strlit("id");
    reveal_strlit("color");
    assert("name"@.len() == 4 && "id"@.len() == 2 && "color"@.len() == 5);
    let j = <SelectOption as Codec>::enc_spec(m);
    lemma_member_at(j->Object_0, 0);
    lemma_member_at(j->Object_0, 1);
    lemma_member_at(j->Object_0, 2);
    lemma_field_round_trip::<SelectOptionId>(j, "id"@, m.id);
    lemma_field_round_trip::<Color>(j, "color"@, m.color);
}

impl Codec for SelectOption {
    open spec fn enc_spec(m: SelectOptionModel) -> Json {
        Json::Object(
            seq![
                ("name"@, Json::Str(m.name)),
                ("id"@, SelectOptionId::enc_spec(m.id)),
                ("color"@, Color::enc_spec(m.color)),
            ],
        )
    }

    open spec fn dec_spec(j: Json) -> Option<SelectOptionModel> {
        match j {
            Json::Object(_) => {
                match str_field(j, "name"@) {
                    Some(name) => {
                        match codec_field::<SelectOptionId>(j, "id"@) {
                            Some(id) => {
                                match codec_field::<Color>(j, "color"@) {
                                    Some(color) => {
                                        Some(SelectOptionModel { name, id, color })
                                    },
                                    None => None,
                                }
                            },
                            None => None,
                        }
                    },
                    None => None,
                }
            },
            _ => None,
        }
    }

    open spec fn in_range(m: SelectOptionModel) -> bool {
        true
    }

    fn encode(&self) -> (r: JsonValue) {
        proof {
            lemma_select_option_round_trip(self.deep_view());
        }
        let mut ms = new_members();
        add_member(&mut ms, "name", JsonValue::String(self.name.clone()));
        add_member(&mut ms, "id", self.id.encode());
        add_member(&mut ms, "color", self.color.encode());
        let r = object(ms);
        assert(r@->Object_0 =~= Self::enc_spec(self.deep_view())->Object_0);
        r
    }

    fn decode(j: &JsonValue) -> (r: Option<SelectOption>) {
        match j {
            JsonValue::Object(_) => {
                let name = string_field(j, "name")?;
                let id = decode_field::<SelectOptionId>(j, "id")?;
                let color = decode_field::<Color>(j, "color")?;
                Some(SelectOption { name, id, color })
            },
            _ => None,
        }
    }
}

impl RoundTrip for SelectOption {
    proof fn lemma_round_trip(m: SelectOptionModel) {
        lemma_select_option_round_trip(m);
    }
}

/// The schema of a select or multi-select property.
#[derive(Clone, Debug, PartialEq, Eq)]
pub struct Select {
    /// Sorted list of options available for this property.
    pub options: Vec<SelectOption>,
}

impl DeepView for Select {
    type V = Seq<SelectOptionModel>;

    open spec fn deep_view(&self) -> Seq<SelectOptionModel> {
        self.options.deep_view()
    }
}

/// Reading back the wire form of a Select gives it back.
proof fn lemma_select_round_trip(m: Seq<SelectOptionModel>)
    ensures
        <Select as Codec>::dec_spec(<Select as Codec>::enc_spec(m)) == Some(m),
{

    let j = <Select as Codec>::enc_spec(m);
    lemma_member_at(j->Object_0, 0);
    lemma_list_field_round_trip::<SelectOption>(j, "options"@, m);
}

impl Codec for Select {
    open spec fn enc_spec(m: Seq<SelectOptionModel>) -> Json {
        Json::Object(
            seq![
                ("options"@, enc_list::<SelectOption>(m)),
            ],
        )
    }

    open spec fn dec_spec(j: Json) -> Option<Seq<SelectOptionModel>> {
        match j {
            Json::Object(_) => {
                match list_field::<SelectOption>(j, "options"@) {
                    Some(options) => {
                        Some(options)
                    },
                    None => None,
                }
            },
            _ => None,
        }
    }

    open spec fn in_range(m: Seq<SelectOptionModel>) -> bool {
        true
    }

    fn encode(&self) -> (r: JsonValue) {
        proof {
            lemma_select_round_trip(self.deep_view());
        }
        let mut ms = new_members();
        add_member(&mut ms, "options", encode_list(&self.options));
        let r = object(ms);
        assert(r@->Object_0 =~= Self::enc_spec(self.deep_view())->Object_0);
        r
    }

    fn decode(j: &JsonValue) -> (r: Option<Select>) {
        match j {
            JsonValue::Object(_) => {
                let options = decode_list_field::<SelectOption>(j, "options")?;
                Some(Select { options })
            },
            _ => None,
        }
    }
}

impl RoundTrip for Select {
    proof fn lemma_round_trip(m: Seq<SelectOptionModel>) {
        lemma_select_round_trip(m);
    }
}

/// A group of the options of a status property.
#[derive(Clone, Debug, PartialEq, Eq)]
pub struct StatusGroupOption {
    pub name: String,
    pub id: SelectOptionId,
    pub color: Color,
    pub option_ids: Vec<SelectOptionId>,
}

pub struct StatusGroupOptionModel {
    pub name: Seq<char>,
    pub id: Seq<char>,
    pub color: Color,
    pub option_ids: Seq<Seq<char>>,
}

impl DeepView for StatusGroupOption {
    type V = StatusGroupOptionModel;

    open spec fn deep_view(&self) -> StatusGroupOptionModel {
        StatusGroupOptionModel {
            name: self.name@,
            id: self.id.deep_view(),
            color: self.color.deep_view(),
            option_ids: self.option_ids.deep_view(),
        }
    }
}

/// Reading back the wire form of a StatusGroupOption gives it back.
proof fn lemma_status_group_option_round_trip(m: StatusGroupOptionModel)
    ensures
        <StatusGroupOption as Codec>::dec_spec(<StatusGroupOption as Codec>::enc_spec(m)) == Some(m),
{
    reveal_strlit("name");
    reveal_strlit("id");
    reveal_strlit("color");
    reveal_strlit("option_ids");
    assert("name"@.len() == 4 && "id"@.len() == 2 && "color"@.len() == 5);
    assert("option_ids"@.len() == 10);
    let j = <StatusGroupOption as Codec>::enc_spec(m);
    lemma_member_at(j->Object_0, 0);
    lemma_member_at(j->Object_0, 1);
    lemma_member_at(j->Object_0, 2);
    lemma_member_at(j->Object_0, 3);
    lemma_field_round_trip::<SelectOptionId>(j, "id"@, m.id);
    lemma_field_round_trip::<Color>(j, "color"@, m.color);
    lemma_list_field_round_trip::<SelectOptionId>(j, "option_ids"@, m.option_ids);
}

impl Codec for StatusGroupOption {
    open spec fn enc_spec(m: StatusGroupOptionModel) -> Json {
        Json::Object(
            seq![
                ("name"@, Json::Str(m.name)),
                ("id"@, SelectOptionId::enc_spec(m.id)),
                ("color"@, Color::enc_spec(m.color)),
                ("option_ids"@, enc_list::<SelectOptionId>(m.option_ids)),
            ],
        )
    }

    open spec fn dec_spec(j: Json) -> Option<StatusGroupOptionModel> {
        match j {
            Json::Object(_) => {
                match str_field(j, "name"@) {
                    Some(name) => {
                        match codec_field::<SelectOptionId>(j, "id"@) {
                            Some(id) => {
                                match codec_field::<Color>(j, "color"@) {
                                    Some(color) => {
                                        match list_field::<SelectOptionId>(j, "option_ids"@) {
                                            Some(option_ids) => {
                                                Some(StatusGroupOptionModel { name, id, color, option_ids })
                                            },
                                            None => None,
                                        }
                                    },
                                    None => None,
                                }
                            },
                            None => None,
                        }
                    },
                    None => None,
                }
            },
            _ => None,
        }
    }

    open spec fn in_range(m: StatusGroupOptionModel) -> bool {
        true
    }

    fn encode(&self) -> (r: JsonValue) {
        proof {
            lemma_status_group_option_round_trip(self.deep_view());
        }
        let mut ms = new_members();
        add_member(&mut ms, "name", JsonValue::String(self.name.clone()));
        add_member(&mut ms, "id", self.id.encode());
        add_member(&mut ms, "color", self.color.encode());
        add_member(&mut ms, "option_ids", encode_list(&self.option_ids));
        let r = object(ms);
        assert(r@->Object_0 =~= Self::enc_spec(self.deep_view())->Object_0);
        r
    }

    fn decode(j: &JsonValue) -> (r: Option<StatusGroupOption>) {
        match j {
            JsonValue::Object(_) => {
                let name = string_field(j, "name")?;
                let id = decode_field::<SelectOptionId>(j, "id")?;
                let color = decode_field::<Color>(j, "color")?;
                let option_ids = decode_list_field::<SelectOptionId>(j, "option_ids")?;
                Some(StatusGroupOption { name, id, color, option_ids })
            },
            _ => None,
        }
    }
}

impl RoundTrip for StatusGroupOption {
    proof fn lemma_round_trip(m: StatusGroupOptionModel) {
        lemma_status_group_option_round_trip(m);
    }
}

/// The schema of a status property.
#[derive(Clone, Debug, PartialEq, Eq)]
pub struct Status {
    /// Sorted list of options available for this property.
    pub options: Vec<SelectOption>,
    /// Sorted list of groups available for this property.
    pub groups: Vec<StatusGroupOption>,
}

pub struct StatusModel {
    pub options: Seq<SelectOptionModel>,
    pub groups: Seq<StatusGroupOptionModel>,
}

impl DeepView for Status {
    type V = StatusModel;

    open spec fn deep_view(&self) -> StatusModel {
        StatusModel {
            options: self.options.deep_view(),
            groups: self.groups.deep_view(),
        }
    }
}

/// Reading back the wire form of a Status gives it back.
proof fn lemma_status_round_trip(m: StatusModel)
    ensures
        <Status as Codec>::dec_spec(<Status as Codec>::enc_spec(m)) == Some(m),
{
    reveal_strlit("options");
    reveal_strlit("groups");
    assert("options"@.len() == 7 && "groups"@.len() == 6);
    let j = <Status as Codec>::enc_spec(m);
    lemma_member_at(j->Object_0, 0);
    lemma_member_at(j->Object_0, 1);
    lemma_list_field_round_trip::<SelectOption>(j, "options"@, m.options);
    lemma_list_field_round_trip::<StatusGroupOption>(j, "groups"@, m.groups);
}

impl Codec for Status {
    open spec fn enc_spec(m: StatusModel) -> Json {
        Json::Object(
            seq![
                ("options"@, enc_list::<SelectOption>(m.options)),
                ("groups"@, enc_list::<StatusGroupOption>(m.groups)),
            ],
        )
    }

    open spec fn dec_spec(j: Json) -> Option<StatusModel> {
        match j {
            Json::Object(_) => {
                match list_field::<SelectOption>(j, "options"@) {
                    Some(options) => {
                        match list_field::<StatusGroupOption>(j, "groups"@) {
                            Some(groups) => {
                                Some(StatusModel { options, groups })
                            },
                            None => None,
                        }
                    },
                    None => None,
                }
            },
            _ => None,
        }
    }

    open spec fn in_range(m: StatusModel) -> bool {
        true
    }

    fn encode(&self) -> (r: JsonValue) {
        proof {
            lemma_status_round_trip(self.deep_view());
        }
        let mut ms = new_members();
        add_member(&mut ms, "options", encode_list(&self.options));
        add_member(&mut ms, "groups", encode_list(&self.groups));
        let r = object(ms);
        assert(r@->Object_0 =~= Self::enc_spec(self.deep_view())->Object_0);
        r
    }

    fn decode(j: &JsonValue) -> (r: Option<Status>) {
        match j {
            JsonValue::Object(_) => {
                let options = decode_list_field::<SelectOption>(j, "options")?;
                let groups = decode_list_field::<StatusGroupOption>(j, "groups")?;
                Some(Status { options, groups })
            },
            _ => None,
        }
    }
}

impl RoundTrip for Status {
    proof fn lemma_round_trip(m: StatusModel) {
        lemma_status_round_trip(m);
    }
}

/// The schema of a formula property.
#[derive(Clone, Debug, PartialEq, Eq)]
pub struct Formula {
    /// Formula to evaluate for this property.
    pub expression: String,
}

impl DeepView for Formula {
    type V = Seq<char>;

    open spec fn deep_view(&self) -> Seq<char> {
        self.expression@
    }
}

/// Reading back the wire form of a Formula gives it back.
proof fn lemma_formula_round_trip(m: Seq<char>)
    ensures
        <Formula as Codec>::dec_spec(<Formula as Codec>::enc_spec(m)) == Some(m),
{

    let j = <Formula as Codec>::enc_spec(m);
    lemma_member_at(j->Object_0, 0);
}

impl Codec for Formula {
    open spec fn enc_spec(m: Seq<char>) -> Json {
        Json::Object(
            seq![
                ("expression"@, Json::Str(m)),
            ],
        )
    }

    open spec fn dec_spec(j: Json) -> Option<Seq<char>> {
        match j {
            Json::Object(_) => {
                match str_field(j, "expression"@) {
                    Some(expression) => {
                        Some(expression)
                    },
                    None => None,
                }
            },
            _ => None,
        }
    }

    open spec fn in_range(m: Seq<char>) -> bool {
        true
    }

    fn encode(&self) -> (r: JsonValue) {
        proof {
            lemma_formula_round_trip(self.deep_view());
        }
        let mut ms = new_members();
        add_member(&mut ms, "expression", JsonValue::String(self.expression.clone()));
        let r = object(ms);
        assert(r@->Object_0 =~= Self::enc_spec(self.deep_view())->Object_0);
        r
    }

    fn decode(j: &JsonValue) -> (r: Option<Formula>) {
        match j {
            JsonValue::Object(_) => {
                let expression = string_field(j, "expression")?;
                Some(Formula { expression })
            },
            _ => None,
        }
    }
}

impl RoundTrip for Formula {
    proof fn lemma_round_trip(m: Seq<char>) {
        lemma_formula_round_trip(m);
    }
}

/// The schema of a relation property.
#[derive(Clone, Debug, PartialEq, Eq)]
pub struct Relation {
    /// The database this relation refers to.
    pub database_id: DatabaseId,
    /// The name of the synced property in the related database.
    pub synced_property_name: Option<String>,
    /// The id of the synced property in the related database.
    pub synced_property_id: Option<PropertyId>,
}

pub struct RelationModel {
    pub database_id: Seq<char>,
    pub synced_property_name: Option<Seq<char>>,
    pub synced_property_id: Option<Seq<char>>,
}

impl DeepView for Relation {
    type V = RelationModel;

    open spec fn deep_view(&self) -> RelationModel {
        RelationModel {
            database_id: self.database_id.deep_view(),
            synced_property_name: self.synced_property_name.deep_view(),
            synced_property_id: self.synced_property_id.deep_view(),
        }
    }
}

/// Reading back the wire form of a Relation gives it back.
proof fn lemma_relation_round_trip(m: RelationModel)
    ensures
        <Relation as Codec>::dec_spec(<Relation as Codec>::enc_spec(m)) == Some(m),
{
    reveal_strlit("database_id");
    reveal_strlit("synced_property_name");
    reveal_strlit("synced_property_id");
    assert("database_id"@.len() == 11 && "synced_property_name"@.len() == 20 && "synced_property_id"@.len() == 18);
    let j = <Relation as Codec>::enc_spec(m);
    lemma_member_at(j->Object_0, 0);
    lemma_member_at(j->Object_0, 1);
    lemma_member_at(j->Object_0, 2);
    lemma_field_round_trip::<DatabaseId>(j, "database_id"@, m.database_id);
    lemma_opt_field_round_trip::<PropertyId>(j, "synced_property_id"@, m.synced_property_id);
}

impl Codec for Relation {
    open spec fn enc_spec(m: RelationModel) -> Json {
        Json::Object(
            seq![
                ("database_id"@, DatabaseId::enc_spec(m.database_id)),
                ("synced_property_name"@, str_or_null(m.synced_property_name)),
                ("synced_property_id"@, enc_opt::<PropertyId>(m.synced_property_id)),
            ],
        )
    }

    open spec fn dec_spec(j: Json) -> Option<RelationModel> {
        match j {
            Json::Object(_) => {
                match codec_field::<DatabaseId>(j, "database_id"@) {
                    Some(database_id) => {
                        match opt_str_field(j, "synced_property_name"@) {
                            Some(synced_property_name) => {
                                match opt_codec_field::<PropertyId>(j, "synced_property_id"@) {
                                    Some(synced_property_id) => {
                                        Some(RelationModel { database_id, synced_property_name, synced_property_id })
                                    },
                                    None => None,
                                }
                            },
                            None => None,
                        }
                    },
                    None => None,
                }
            },
            _ => None,
        }
    }

    open spec fn in_range(m: RelationModel) -> bool {
        true
    }

    fn encode(&self) -> (r: JsonValue) {
        proof {
            lemma_relation_round_trip(self.deep_view());
        }
        let mut ms = new_members();
        add_member(&mut ms, "database_id", self.database_id.encode());
        add_member(&mut ms, "synced_property_name", string_or_null(&self.synced_property_name));
        add_member(&mut ms, "synced_property_id", encode_opt(&self.synced_property_id));
        let r = object(ms);
        assert(r@->Object_0 =~= Self::enc_spec(self.deep_view())->Object_0);
        r
    }

    fn decode(j: &JsonValue) -> (r: Option<Relation>) {
        match j {
            JsonValue::Object(_) => {
                let database_id = decode_field::<DatabaseId>(j, "database_id")?;
                let synced_property_name = optional_string_field(j, "synced_property_name")?;
                let synced_property_id = decode_opt_field::<PropertyId>(j, "synced_property_id")?;
                Some(Relation { database_id, synced_property_name, synced_property_id })
            },
            _ => None,
        }
    }
}

impl RoundTrip for Relation {
    proof fn lemma_round_trip(m: RelationModel) {
        lemma_relation_round_trip(m);
    }
}

/// The schema of a rollup property.
#[derive(Clone, Debug, PartialEq, Eq)]
pub struct Rollup {
    /// The name of the relation property that this property rolls up.
    pub relation_property_name: String,
    /// The id of that relation property.
    pub relation_property_id: PropertyId,
    /// The name of the property of the related pages that the function reads.
    pub rollup_property_name: String,
    /// The id of that property.
    pub rollup_property_id: String,
    /// The function evaluated over the related pages.
    pub function: RollupFunction,
}

pub struct RollupModel {
    pub relation_property_name: Seq<char>,
    pub relation_property_id: Seq<char>,
    pub rollup_property_name: Seq<char>,
    pub rollup_property_id: Seq<char>,
    pub function: RollupFunction,
}

impl DeepView for Rollup {
    type V = RollupModel;

    open spec fn deep_view(&self) -> RollupModel {
        RollupModel {
            relation_property_name: self.relation_property_name@,
            relation_property_id: self.relation_property_id.deep_view(),
            rollup_property_name: self.rollup_property_name@,
            rollup_property_id: self.rollup_property_id@,
            function: self.function.deep_view(),
        }
    }
}

/// Reading back the wire form of a Rollup gives it back.
proof fn lemma_rollup_round_trip(m: RollupModel)
    ensures
        <Rollup as Codec>::dec_spec(<Rollup as Codec>::enc_spec(m)) == Some(m),
{
    reveal_strlit("relation_property_name");
    reveal_strlit("relation_property_id");
    reveal_strlit("rollup_property_name");
    reveal_strlit("rollup_property_id");
    reveal_strlit("function");
    assert("relation_property_name"@.len() == 22 && "relation_property_id"@.len() == 20 && "rollup_property_name"@.len() == 20);
    assert("rollup_property_id"@.len() == 18 && "function"@.len() == 8 && "relation_property_id"@[1] == 'e');
    assert("rollup_property_name"@[1] == 'o');
    let j = <Rollup as Codec>::enc_spec(m);
    lemma_member_at(j->Object_0, 0);
    lemma_member_at(j->Object_0, 1);
    lemma_member_at(j->Object_0, 2);
    lemma_member_at(j->Object_0, 3);
    lemma_member_at(j->Object_0, 4);
    lemma_field_round_trip::<PropertyId>(j, "relation_property_id"@, m.relation_property_id);
    lemma_field_round_trip::<RollupFunction>(j, "function"@, m.function);
}

impl Codec for Rollup {
    open spec fn enc_spec(m: RollupModel) -> Json {
        Json::Object(
            seq![
                ("relation_property_name"@, Json::Str(m.relation_property_name)),
                ("relation_property_id"@, PropertyId::enc_spec(m.relation_property_id)),
                ("rollup_property_name"@, Json::Str(m.rollup_property_name)),
                ("rollup_property_id"@, Json::Str(m.rollup_property_id)),
                ("function"@, RollupFunction::enc_spec(m.function)),
            ],
        )
    }

    open spec fn dec_spec(j: Json) -> Option<RollupModel> {
        match j {
            Json::Object(_) => {
                match str_field(j, "relation_property_name"@) {
                    Some(relation_property_name) => {
                        match codec_field::<PropertyId>(j, "relation_property_id"@) {
                            Some(relation_property_id) => {
                                match str_field(j, "rollup_property_name"@) {
                                    Some(rollup_property_name) => {
                                        match str_field(j, "rollup_property_id"@) {
                                            Some(rollup_property_id) => {
                                                match codec_field::<RollupFunction>(j, "function"@) {
                                                    Some(function) => {
                                                        Some(RollupModel { relation_property_name, relation_property_id, rollup_property_name, rollup_property_id, function })
                                                    },
                                                    None => None,
                                                }
                                            },
                                            None => None,
                                        }
                                    },
                                    None => None,
                                }
                            },
                            None => None,
                        }
                    },
                    None => None,
                }
            },
            _ => None,
        }
    }

    open spec fn in_range(m: RollupModel) -> bool {
        true
    }

    fn encode(&self) -> (r: JsonValue) {
        proof {
            lemma_rollup_round_trip(self.deep_view());
        }
        let mut ms = new_members();
        add_member(&mut ms, "relation_property_name", JsonValue::String(self.relation_property_name.clone()));
        add_member(&mut ms, "relation_property_id", self.relation_property_id.encode());
        add_member(&mut ms, "rollup_property_name", JsonValue::String(self.rollup_property_name.clone()));
        add_member(&mut ms, "rollup_property_id", JsonValue::String(self.rollup_property_id.clone()));
        add_member(&mut ms, "function", self.function.encode());
        let r = object(ms);
        assert(r@->Object_0 =~= Self::enc_spec(self.deep_view())->Object_0);
        r
    }

    fn decode(j: &JsonValue) -> (r: Option<Rollup>) {
        match j {
            JsonValue::Object(_) => {
                let relation_property_name = string_field(j, "relation_property_name")?;
                let relation_property_id = decode_field::<PropertyId>(j, "relation_property_id")?;
                let rollup_property_name = string_field(j, "rollup_property_name")?;
                let rollup_property_id = string_field(j, "rollup_property_id")?;
                let function = decode_field::<RollupFunction>(j, "function")?;
                Some(Rollup { relation_property_name, relation_property_id, rollup_property_name, rollup_property_id, function })
            },
            _ => None,
        }
    }
}

impl RoundTrip for Rollup {
    proof fn lemma_round_trip(m: RollupModel) {
        lemma_rollup_round_trip(m);
    }
}

/// The schema of a property of a database: its kind and, for some kinds,
/// static settings under the member named by the kind's tag.
#[derive(Clone, Debug, PartialEq, Eq)]
pub enum PropertyConfigurationData {
    Title,
    Text,
    Number { number: NumberDetails },
    Select { select: Select },
    Status { status: Status },
    MultiSelect { multi_select: Select },
    Date,
    People,
    Files,
    Checkbox,
    Url,
    Email,
    PhoneNumber,
    Formula { formula: Formula },
    Relation { relation: Relation },
    Rollup { rollup: Rollup },
    CreatedTime,
    CreatedBy,
    LastEditedTime,
    LastEditedBy,
    Button,
}

/// The model of a [`PropertyConfigurationData`].
pub enum PropertyConfigurationModel {
    Title,
    Text,
    Number(NumberFormat),
    Select(Seq<SelectOptionModel>),
    Status(StatusModel),
    MultiSelect(Seq<SelectOptionModel>),
    Date,
    People,
    Files,
    Checkbox,
    Url,
    Email,
    PhoneNumber,
    Formula(Seq<char>),
    Relation(RelationModel),
    Rollup(RollupModel),
    CreatedTime,
    CreatedBy,
    LastEditedTime,
    LastEditedBy,
    Button,
}

impl PropertyConfigurationModel {
    pub open spec fn kind(self) -> PropertyKind {
        match self {
            PropertyConfigurationModel::Title => PropertyKind::Title,
            PropertyConfigurationModel::Text => PropertyKind::Text,
            PropertyConfigurationModel::Number(..) => PropertyKind::Number,
            PropertyConfigurationModel::Select(..) => PropertyKind::Select,
            PropertyConfigurationModel::Status(..) => PropertyKind::Status,
            PropertyConfigurationModel::MultiSelect(..) => PropertyKind::MultiSelect,
            PropertyConfigurationModel::Date => PropertyKind::Date,
            PropertyConfigurationModel::People => PropertyKind::People,
            PropertyConfigurationModel::Files => PropertyKind::Files,
            PropertyConfigurationModel::Checkbox => PropertyKind::Checkbox,
            PropertyConfigurationModel::Url => PropertyKind::Url,
            PropertyConfigurationModel::Email => PropertyKind::Email,
            PropertyConfigurationModel::PhoneNumber => PropertyKind::PhoneNumber,
            PropertyConfigurationModel::Formula(..) => PropertyKind::Formula,
            PropertyConfigurationModel::Relation(..) => PropertyKind::Relation,
            PropertyConfigurationModel::Rollup(..) => PropertyKind::Rollup,
            PropertyConfigurationModel::CreatedTime => PropertyKind::CreatedTime,
            PropertyConfigurationModel::CreatedBy => PropertyKind::CreatedBy,
            PropertyConfigurationModel::LastEditedTime => PropertyKind::LastEditedTime,
            PropertyConfigurationModel::LastEditedBy => PropertyKind::LastEditedBy,
            PropertyConfigurationModel::Button => PropertyKind::Button,
        }
    }
}

impl DeepView for PropertyConfigurationData {
    type V = PropertyConfigurationModel;

    open spec fn deep_view(&self) -> PropertyConfigurationModel {
        match self {
            PropertyConfigurationData::Title => PropertyConfigurationModel::Title,
            PropertyConfigurationData::Text => PropertyConfigurationModel::Text,
            PropertyConfigurationData::Number { number } => PropertyConfigurationModel::Number(number.deep_view()),
            PropertyConfigurationData::Select { select } => PropertyConfigurationModel::Select(select.deep_view()),
            PropertyConfigurationData::Status { status } => PropertyConfigurationModel::Status(status.deep_view()),
            PropertyConfigurationData::MultiSelect { multi_select } => PropertyConfigurationModel::MultiSelect(multi_select.deep_view()),
            PropertyConfigurationData::Date => PropertyConfigurationModel::Date,
            PropertyConfigurationData::People => PropertyConfigurationModel::People,
            PropertyConfigurationData::Files => PropertyConfigurationModel::Files,
            PropertyConfigurationData::Checkbox => PropertyConfigurationModel::Checkbox,
            PropertyConfigurationData::Url => PropertyConfigurationModel::Url,
            PropertyConfigurationData::Email => PropertyConfigurationModel::Email,
            PropertyConfigurationData::PhoneNumber => PropertyConfigurationModel::PhoneNumber,
            PropertyConfigurationData::Formula { formula } => PropertyConfigurationModel::Formula(formula.deep_view()),
            PropertyConfigurationData::Relation { relation } => PropertyConfigurationModel::Relation(relation.deep_view()),
            PropertyConfigurationData::Rollup { rollup } => PropertyConfigurationModel::Rollup(rollup.deep_view()),
            PropertyConfigurationData::CreatedTime => PropertyConfigurationModel::CreatedTime,
            PropertyConfigurationData::CreatedBy => PropertyConfigurationModel::CreatedBy,
            PropertyConfigurationData::LastEditedTime => PropertyConfigurationModel::LastEditedTime,
            PropertyConfigurationData::LastEditedBy => PropertyConfigurationModel::LastEditedBy,
            PropertyConfigurationData::Button => PropertyConfigurationModel::Button,
        }
    }
}

/// The wire form of a schema: the kind's tag under `type`, and the settings
/// under the member named by the tag, for the kinds that have settings.
pub open spec fn enc_configuration(m: PropertyConfigurationModel) -> Json {
    let tag = wire_tag(m.kind());
    match m {
            PropertyConfigurationModel::Title => Json::Object(seq![("type"@, Json::Str(tag))]),
            PropertyConfigurationModel::Text => Json::Object(seq![("type"@, Json::Str(tag))]),
            PropertyConfigurationModel::Number(p) => tagged(tag, NumberDetails::enc_spec(p)),
            PropertyConfigurationModel::Select(p) => tagged(tag, Select::enc_spec(p)),
            PropertyConfigurationModel::Status(p) => tagged(tag, Status::enc_spec(p)),
            PropertyConfigurationModel::MultiSelect(p) => tagged(tag, Select::enc_spec(p)),
            PropertyConfigurationModel::Date => Json::Object(seq![("type"@, Json::Str(tag))]),
            PropertyConfigurationModel::People => Json::Object(seq![("type"@, Json::Str(tag))]),
            PropertyConfigurationModel::Files => Json::Object(seq![("type"@, Json::Str(tag))]),
            PropertyConfigurationModel::Checkbox => Json::Object(seq![("type"@, Json::Str(tag))]),
            PropertyConfigurationModel::Url => Json::Object(seq![("type"@, Json::Str(tag))]),
            PropertyConfigurationModel::Email => Json::Object(seq![("type"@, Json::Str(tag))]),
            PropertyConfigurationModel::PhoneNumber => Json::Object(seq![("type"@, Json::Str(tag))]),
            PropertyConfigurationModel::Formula(p) => tagged(tag, Formula::enc_spec(p)),
            PropertyConfigurationModel::Relation(p) => tagged(tag, Relation::enc_spec(p)),
            PropertyConfigurationModel::Rollup(p) => tagged(tag, Rollup::enc_spec(p)),
            PropertyConfigurationModel::CreatedTime => Json::Object(seq![("type"@, Json::Str(tag))]),
            PropertyConfigurationModel::CreatedBy => Json::Object(seq![("type"@, Json::Str(tag))]),
            PropertyConfigurationModel::LastEditedTime => Json::Object(seq![("type"@, Json::Str(tag))]),
            PropertyConfigurationModel::LastEditedBy => Json::Object(seq![("type"@, Json::Str(tag))]),
            PropertyConfigurationModel::Button => Json::Object(seq![("type"@, Json::Str(tag))]),
    }
}

/// Reading the settings of a schema of kind `k`; members that a kind does not
/// use are ignored.
pub open spec fn dec_configuration_payload(k: PropertyKind, j: Json) -> Option<PropertyConfigurationModel> {
    match k {
        PropertyKind::Title => Some(PropertyConfigurationModel::Title),
        PropertyKind::Text => Some(PropertyConfigurationModel::Text),
        PropertyKind::Number => match codec_field::<NumberDetails>(j, "number"@) {
            Some(p) => Some(PropertyConfigurationModel::Number(p)),
            None => None,
        },
        PropertyKind::Select => match codec_field::<Select>(j, "select"@) {
            Some(p) => Some(PropertyConfigurationModel::Select(p)),
            None => None,
        },
        PropertyKind::Status => match codec_field::<Status>(j, "status"@) {
            Some(p) => Some(PropertyConfigurationModel::Status(p)),
            None => None,
        },
        PropertyKind::MultiSelect => match codec_field::<Select>(j, "multi_select"@) {
            Some(p) => Some(PropertyConfigurationModel::MultiSelect(p)),
            None => None,
        },
        PropertyKind::Date => Some(PropertyConfigurationModel::Date),
        PropertyKind::People => Some(PropertyConfigurationModel::People),
        PropertyKind::Files => Some(PropertyConfigurationModel::Files),
        PropertyKind::Checkbox => Some(PropertyConfigurationModel::Checkbox),
        PropertyKind::Url => Some(PropertyConfigurationModel::Url),
        PropertyKind::Email => Some(PropertyConfigurationModel::Email),
        PropertyKind::PhoneNumber => Some(PropertyConfigurationModel::PhoneNumber),
        PropertyKind::Formula => match codec_field::<Formula>(j, "formula"@) {
            Some(p) => Some(PropertyConfigurationModel::Formula(p)),
            None => None,
        },
        PropertyKind::Relation => match codec_field::<Relation>(j, "relation"@) {
            Some(p) => Some(PropertyConfigurationModel::Relation(p)),
            None => None,
        },
        PropertyKind::Rollup => match codec_field::<Rollup>(j, "rollup"@) {
            Some(p) => Some(PropertyConfigurationModel::Rollup(p)),
            None => None,
        },
        PropertyKind::CreatedTime => Some(PropertyConfigurationModel::CreatedTime),
        PropertyKind::CreatedBy => Some(PropertyConfigurationModel::CreatedBy),
        PropertyKind::LastEditedTime => Some(PropertyConfigurationModel::LastEditedTime),
        PropertyKind::LastEditedBy => Some(PropertyConfigurationModel::LastEditedBy),
        PropertyKind::Button => Some(PropertyConfigurationModel::Button),
    }
}

/// Reading a schema: `type` must hold a known tag.
pub open spec fn dec_configuration(j: Json) -> Option<PropertyConfigurationModel> {
    match str_field(j, "type"@) {
        Some(tag) => match kind_of_tag(tag) {
            Some(k) => dec_configuration_payload(k, j),
            None => None,
        },
        None => None,
    }
}

/// Reading back the wire form of a schema gives the schema.
pub proof fn lemma_configuration_round_trip(m: PropertyConfigurationModel)
    ensures
        dec_configuration(enc_configuration(m)) == Some(m),
{
    let k = m.kind();
    lemma_property_kind_names(k);
    lemma_tags_not_type(k);
    let j = enc_configuration(m);
    match m {
        PropertyConfigurationModel::Title => lemma_member_at(j->Object_0, 0),
        PropertyConfigurationModel::Text => lemma_member_at(j->Object_0, 0),
        PropertyConfigurationModel::Number(p) => {
            lemma_tagged(wire_tag(k), NumberDetails::enc_spec(p));
            <NumberDetails as RoundTrip>::lemma_round_trip(p);
        },
        PropertyConfigurationModel::Select(p) => {
            lemma_tagged(wire_tag(k), Select::enc_spec(p));
            <Select as RoundTrip>::lemma_round_trip(p);
        },
        PropertyConfigurationModel::Status(p) => {
            lemma_tagged(wire_tag(k), Status::enc_spec(p));
            <Status as RoundTrip>::lemma_round_trip(p);
        },
        PropertyConfigurationModel::MultiSelect(p) => {
            lemma_tagged(wire_tag(k), Select::enc_spec(p));
            <Select as RoundTrip>::lemma_round_trip(p);
        },
        PropertyConfigurationModel::Date => lemma_member_at(j->Object_0, 0),
        PropertyConfigurationModel::People => lemma_member_at(j->Object_0, 0),
        PropertyConfigurationModel::Files => lemma_member_at(j->Object_0, 0),
        PropertyConfigurationModel::Checkbox => lemma_member_at(j->Object_0, 0),
        PropertyConfigurationModel::Url => lemma_member_at(j->Object_0, 0),
        PropertyConfigurationModel::Email => lemma_member_at(j->Object_0, 0),
        PropertyConfigurationModel::PhoneNumber => lemma_member_at(j->Object_0, 0),
        PropertyConfigurationModel::Formula(p) => {
            lemma_tagged(wire_tag(k), Formula::enc_spec(p));
            <Formula as RoundTrip>::lemma_round_trip(p);
        },
        PropertyConfigurationModel::Relation(p) => {
            lemma_tagged(wire_tag(k), Relation::enc_spec(p));
            <Relation as RoundTrip>::lemma_round_trip(p);
        },
        PropertyConfigurationModel::Rollup(p) => {
            lemma_tagged(wire_tag(k), Rollup::enc_spec(p));
            <Rollup as RoundTrip>::lemma_round_trip(p);
        },
        PropertyConfigurationModel::CreatedTime => lemma_member_at(j->Object_0, 0),
        PropertyConfigurationModel::CreatedBy => lemma_member_at(j->Object_0, 0),
        PropertyConfigurationModel::LastEditedTime => lemma_member_at(j->Object_0, 0),
        PropertyConfigurationModel::LastEditedBy => lemma_member_at(j->Object_0, 0),
        PropertyConfigurationModel::Button => lemma_member_at(j->Object_0, 0),
    }
}

impl PropertyConfigurationData {
    /// The kind of property that the schema describes.
    pub fn kind(&self) -> (r: PropertyKind)
        ensures
            r == self.deep_view().kind(),
    {
        match self {
            PropertyConfigurationData::Title => PropertyKind::Title,
            PropertyConfigurationData::Text => PropertyKind::Text,
            PropertyConfigurationData::Number { .. } => PropertyKind::Number,
            PropertyConfigurationData::Select { .. } => PropertyKind::Select,
            PropertyConfigurationData::Status { .. } => PropertyKind::Status,
            PropertyConfigurationData::MultiSelect { .. } => PropertyKind::MultiSelect,
            PropertyConfigurationData::Date => PropertyKind::Date,
            PropertyConfigurationData::People => PropertyKind::People,
            PropertyConfigurationData::Files => PropertyKind::Files,
            PropertyConfigurationData::Checkbox => PropertyKind::Checkbox,
            PropertyConfigurationData::Url => PropertyKind::Url,
            PropertyConfigurationData::Email => PropertyKind::Email,
            PropertyConfigurationData::PhoneNumber => PropertyKind::PhoneNumber,
            PropertyConfigurationData::Formula { .. } => PropertyKind::Formula,
            PropertyConfigurationData::Relation { .. } => PropertyKind::Relation,
            PropertyConfigurationData::Rollup { .. } => PropertyKind::Rollup,
            PropertyConfigurationData::CreatedTime => PropertyKind::CreatedTime,
            PropertyConfigurationData::CreatedBy => PropertyKind::CreatedBy,
            PropertyConfigurationData::LastEditedTime => PropertyKind::LastEditedTime,
            PropertyConfigurationData::LastEditedBy => PropertyKind::LastEditedBy,
            PropertyConfigurationData::Button => PropertyKind::Button,
        }
    }

    /// The wire form of the schema; reading it back gives the schema.
    pub fn encode(&self) -> (r: JsonValue)
        ensures
            r@ == enc_configuration(self.deep_view()),
            dec_configuration(r@) == Some(self.deep_view()),
    {
        proof {
            lemma_configuration_round_trip(self.deep_view());
        }
        let tag = self.kind().wire_name();
        match self {
            PropertyConfigurationData::Title => type_only(tag),
            PropertyConfigurationData::Text => type_only(tag),
            PropertyConfigurationData::Number { number } => tagged_object(tag, number.encode()),
            PropertyConfigurationData::Select { select } => tagged_object(tag, select.encode()),
            PropertyConfigurationData::Status { status } => tagged_object(tag, status.encode()),
            PropertyConfigurationData::MultiSelect { multi_select } => tagged_object(tag, multi_select.encode()),
            PropertyConfigurationData::Date => type_only(tag),
            PropertyConfigurationData::People => type_only(tag),
            PropertyConfigurationData::Files => type_only(tag),
            PropertyConfigurationData::Checkbox => type_only(tag),
            PropertyConfigurationData::Url => type_only(tag),
            PropertyConfigurationData::Email => type_only(tag),
            PropertyConfigurationData::PhoneNumber => type_only(tag),
            PropertyConfigurationData::Formula { formula } => tagged_object(tag, formula.encode()),
            PropertyConfigurationData::Relation { relation } => tagged_object(tag, relation.encode()),
            PropertyConfigurationData::Rollup { rollup } => tagged_object(tag, rollup.encode()),
            PropertyConfigurationData::CreatedTime => type_only(tag),
            PropertyConfigurationData::CreatedBy => type_only(tag),
            PropertyConfigurationData::LastEditedTime => type_only(tag),
            PropertyConfigurationData::LastEditedBy => type_only(tag),
            PropertyConfigurationData::Button => type_only(tag),
        }
    }

    /// Reads a schema; fails when `type` is missing, names no kind, or the
    /// settings do not read.
    pub fn decode(j: &JsonValue) -> (r: Result<PropertyConfigurationData, DecodeError>)
        ensures
            match str_field(j@, "type"@) {
                None => r matches Err(DecodeError::MissingTag),
                Some(t) => match kind_of_tag(t) {
                    None => r matches Err(DecodeError::UnknownTag { tag }) && tag@ == t,
                    Some(k) => match dec_configuration_payload(k, j@) {
                        Some(m) => r matches Ok(v) && v.deep_view() == m,
                        None => r matches Err(DecodeError::Malformed { tag }) && tag@ == t,
                    },
                },
            },
            r is Ok <==> dec_configuration(j@) is Some,
    {
        let tag = match string_field(j, "type") {
            Some(t) => t,
            None => {
                return Err(DecodeError::MissingTag);
            },
        };
        let kind = match PropertyKind::from_wire_name(&tag) {
            Some(k) => k,
            None => {
                return Err(DecodeError::UnknownTag { tag });
            },
        };
        let v = match kind {
            PropertyKind::Title => Some(PropertyConfigurationData::Title),
            PropertyKind::Text => Some(PropertyConfigurationData::Text),
            PropertyKind::Number => match decode_field::<NumberDetails>(j, "number") {
                Some(number) => Some(PropertyConfigurationData::Number { number }),
                None => None,
            },
            PropertyKind::Select => match decode_field::<Select>(j, "select") {
                Some(select) => Some(PropertyConfigurationData::Select { select }),
                None => None,
            },
            PropertyKind::Status => match decode_field::<Status>(j, "status") {
                Some(status) => Some(PropertyConfigurationData::Status { status }),
                None => None,
            },
            PropertyKind::MultiSelect => match decode_field::<Select>(j, "multi_select") {
                Some(multi_select) => Some(PropertyConfigurationData::MultiSelect { multi_select }),
                None => None,
            },
            PropertyKind::Date => Some(PropertyConfigurationData::Date),
            PropertyKind::People => Some(PropertyConfigurationData::People),
            PropertyKind::Files => Some(PropertyConfigurationData::Files),
            PropertyKind::Checkbox => Some(PropertyConfigurationData::Checkbox),
            PropertyKind::Url => Some(PropertyConfigurationData::Url),
            PropertyKind::Email => Some(PropertyConfigurationData::Email),
            PropertyKind::PhoneNumber => Some(PropertyConfigurationData::PhoneNumber),
            PropertyKind::Formula => match decode_field::<Formula>(j, "formula") {
                Some(formula) => Some(PropertyConfigurationData::Formula { formula }),
                None => None,
            },
            PropertyKind::Relation => match decode_field::<Relation>(j, "relation") {
                Some(relation) => Some(PropertyConfigurationData::Relation { relation }),
                None => None,
            },
            PropertyKind::Rollup => match decode_field::<Rollup>(j, "rollup") {
                Some(rollup) => Some(PropertyConfigurationData::Rollup { rollup }),
                None => None,
            },
            PropertyKind::CreatedTime => Some(PropertyConfigurationData::CreatedTime),
            PropertyKind::CreatedBy => Some(PropertyConfigurationData::CreatedBy),
            PropertyKind::LastEditedTime => Some(PropertyConfigurationData::LastEditedTime),
            PropertyKind::LastEditedBy => Some(PropertyConfigurationData::LastEditedBy),
            PropertyKind::Button => Some(PropertyConfigurationData::Button),
        };
        match v {
            Some(v) => Ok(v),
            None => Err(DecodeError::Malformed { tag }),
        }
    }
}

/// The object that holds only its `type`.
fn type_only(tag: &str) -> (r: JsonValue)
    ensures
        r@ == Json::Object(seq![("type"@, Json::Str(tag@))]),
{
    let mut ms = new_members();
    add_member(&mut ms, "type", string_value(tag));
    let r = object(ms);
    assert(r@->Object_0 =~= seq![("type"@, Json::Str(tag@))]);
    r
}

} // verus!
