use vstd::prelude::*;

use crate::models::dates::Timestamp;
use crate::models::properties::{
    DateValue, FileReference, FormulaResultValue, RelationValue, SelectedValue,
};
use crate::models::text::RichText;
use crate::models::users::User;
use crate::models::values::{kind_name, PropertyKind, PropertyValue, RollupValue};

verus! {

/// A property value was asked for as a type that its kind cannot be read as.
#[derive(Clone, Debug, PartialEq, Eq)]
pub struct WrongPropertyTypeError {
    /// The names of the kinds that could have been read.
    pub expected: Vec<String>,
    /// The name of the value's own kind.
    pub actual: String,
}

/// Whether `e` names the kinds `expected`, in order, and the kind `actual`.
pub open spec fn reports(e: WrongPropertyTypeError, expected: Seq<PropertyKind>, actual: PropertyKind) -> bool {
    &&& e.expected.deep_view() == expected.map_values(|k: PropertyKind| kind_name(k))
    &&& e.actual@ == kind_name(actual)
}

/// The kind of a property value.
pub open spec fn kind_of(v: PropertyValue) -> PropertyKind {
    v.deep_view().kind()
}

fn kinds1(a: PropertyKind) -> (r: Vec<PropertyKind>)
    ensures
        r@ == seq![a],
{
    let mut r = Vec::new();
    r.push(a);
    r
}

fn kinds2(a: PropertyKind, b: PropertyKind) -> (r: Vec<PropertyKind>)
    ensures
        r@ == seq![a, b],
{
    let mut r = Vec::new();
    r.push(a);
    r.push(b);
    assert(r@ =~= seq![a, b]);
    r
}

fn kinds3(a: PropertyKind, b: PropertyKind, c: PropertyKind) -> (r: Vec<PropertyKind>)
    ensures
        r@ == seq![a, b, c],
{
    let mut r = Vec::new();
    r.push(a);
    r.push(b);
    r.push(c);
    assert(r@ =~= seq![a, b, c]);
    r
}

/// The error for a value of kind `actual` asked for as one of `expected`.
pub fn wrong_type(expected: Vec<PropertyKind>, actual: PropertyKind) -> (e: WrongPropertyTypeError)
    ensures
        reports(e, expected@, actual),
{
    let mut names: Vec<String> = Vec::new();
    let mut i: usize = 0;
    while i < expected.len()
        invariant
            i <= expected.len(),
            names@.len() == i,
            forall|k: int| 0 <= k < i ==> (#[trigger] names@[k])@ == kind_name(expected@[k]),
        decreases expected.len() - i,
    {
        names.push(expected[i].name().to_owned());
        i += 1;
    }
    let e = WrongPropertyTypeError { expected: names, actual: actual.name().to_owned() };
    assert(e.expected.deep_view() =~= expected@.map_values(|k: PropertyKind| kind_name(k)));
    e
}

/// A type that a property value can be read as. Each type says which kinds
/// it accepts; callers may add their own.
pub trait FromPropertyValue: Sized {
    /// The kinds that can be read as this type, in the order that errors
    /// name them.
    spec fn accepted_kinds() -> Seq<PropertyKind>;

    /// What a value of an accepted kind reads as.
    spec fn read_from(v: PropertyValue) -> Self;

    fn from_property_value(v: PropertyValue) -> (r: Result<Self, WrongPropertyTypeError>)
        ensures
            Self::accepted_kinds().contains(kind_of(v)) ==> r == Ok::<
                Self,
                WrongPropertyTypeError,
            >(Self::read_from(v)),
            !Self::accepted_kinds().contains(kind_of(v)) ==> (r matches Err(e) && reports(
                e,
                Self::accepted_kinds(),
                kind_of(v),
            )),
    ;
}

/// Read from Title, Text.
impl FromPropertyValue for Vec<RichText> {
    open spec fn accepted_kinds() -> Seq<PropertyKind> {
        seq![PropertyKind::Title, PropertyKind::Text]
    }

    open spec fn read_from(v: PropertyValue) -> Vec<RichText> {
        match v {
            PropertyValue::Title { title } => title,
            PropertyValue::Text { rich_text } => rich_text,
            _ => arbitrary(),
        }
    }

    fn from_property_value(v: PropertyValue) -> (r: Result<Vec<RichText>, WrongPropertyTypeError>) {
        let ghost accepted = Self::accepted_kinds();
        assert(accepted[0] == PropertyKind::Title);
        assert(accepted[1] == PropertyKind::Text);
        match v {
            PropertyValue::Title { title } => Ok(title),
            PropertyValue::Text { rich_text } => Ok(rich_text),
            _ => {
                let actual = v.kind();
                assert(!accepted.contains(actual));
                Err(wrong_type(kinds2(PropertyKind::Title, PropertyKind::Text), actual))
            },
        }
    }
}

/// Read from Number.
impl FromPropertyValue for Option<serde_json::Number> {
    open spec fn accepted_kinds() -> Seq<PropertyKind> {
        seq![PropertyKind::Number]
    }

    open spec fn read_from(v: PropertyValue) -> Option<serde_json::Number> {
        match v {
            PropertyValue::Number { number } => number,
            _ => arbitrary(),
        }
    }

    fn from_property_value(v: PropertyValue) -> (r: Result<Option<serde_json::Number>, WrongPropertyTypeError>) {
        let ghost accepted = Self::accepted_kinds();
        assert(accepted[0] == PropertyKind::Number);
        match v {
            PropertyValue::Number { number } => Ok(number),
            _ => {
                let actual = v.kind();
                assert(!accepted.contains(actual));
                Err(wrong_type(kinds1(PropertyKind::Number), actual))
            },
        }
    }
}

/// Read from Select, Status.
impl FromPropertyValue for Option<SelectedValue> {
    open spec fn accepted_kinds() -> Seq<PropertyKind> {
        seq![PropertyKind::Select, PropertyKind::Status]
    }

    open spec fn read_from(v: PropertyValue) -> Option<SelectedValue> {
        match v {
            PropertyValue::Select { select } => select,
            PropertyValue::Status { status } => status,
            _ => arbitrary(),
        }
    }

    fn from_property_value(v: PropertyValue) -> (r: Result<Option<SelectedValue>, WrongPropertyTypeError>) {
        let ghost accepted = Self::accepted_kinds();
        assert(accepted[0] == PropertyKind::Select);
        assert(accepted[1] == PropertyKind::Status);
        match v {
            PropertyValue::Select { select } => Ok(select),
            PropertyValue::Status { status } => Ok(status),
            _ => {
                let actual = v.kind();
                assert(!accepted.contains(actual));
                Err(wrong_type(kinds2(PropertyKind::Select, PropertyKind::Status), actual))
            },
        }
    }
}

/// Read from MultiSelect.
impl FromPropertyValue for Option<Vec<SelectedValue>> {
    open spec fn accepted_kinds() -> Seq<PropertyKind> {
        seq![PropertyKind::MultiSelect]
    }

    open spec fn read_from(v: PropertyValue) -> Option<Vec<SelectedValue>> {
        match v {
            PropertyValue::MultiSelect { multi_select } => multi_select,
            _ => arbitrary(),
        }
    }

    fn from_property_value(v: PropertyValue) -> (r: Result<Option<Vec<SelectedValue>>, WrongPropertyTypeError>) {
        let ghost accepted = Self::accepted_kinds();
        assert(accepted[0] == PropertyKind::MultiSelect);
        match v {
            PropertyValue::MultiSelect { multi_select } => Ok(multi_select),
            _ => {
                let actual = v.kind();
                assert(!accepted.contains(actual));
                Err(wrong_type(kinds1(PropertyKind::MultiSelect), actual))
            },
        }
    }
}

/// Read from Date.
impl FromPropertyValue for Option<DateValue> {
    open spec fn accepted_kinds() -> Seq<PropertyKind> {
        seq![PropertyKind::Date]
    }

    open spec fn read_from(v: PropertyValue) -> Option<DateValue> {
        match v {
            PropertyValue::Date { date } => date,
            _ => arbitrary(),
        }
    }

    fn from_property_value(v: PropertyValue) -> (r: Result<Option<DateValue>, WrongPropertyTypeError>) {
        let ghost accepted = Self::accepted_kinds();
        assert(accepted[0] == PropertyKind::Date);
        match v {
            PropertyValue::Date { date } => Ok(date),
            _ => {
                let actual = v.kind();
                assert(!accepted.contains(actual));
                Err(wrong_type(kinds1(PropertyKind::Date), actual))
            },
        }
    }
}

/// Read from Formula.
impl FromPropertyValue for FormulaResultValue {
    open spec fn accepted_kinds() -> Seq<PropertyKind> {
        seq![PropertyKind::Formula]
    }

    open spec fn read_from(v: PropertyValue) -> FormulaResultValue {
        match v {
            PropertyValue::Formula { formula } => formula,
            _ => arbitrary(),
        }
    }

    fn from_property_value(v: PropertyValue) -> (r: Result<FormulaResultValue, WrongPropertyTypeError>) {
        let ghost accepted = Self::accepted_kinds();
        assert(accepted[0] == PropertyKind::Formula);
        match v {
            PropertyValue::Formula { formula } => Ok(formula),
            _ => {
                let actual = v.kind();
                assert(!accepted.contains(actual));
                Err(wrong_type(kinds1(PropertyKind::Formula), actual))
            },
        }
    }
}

/// Read from Relation.
impl FromPropertyValue for Option<Vec<RelationValue>> {
    open spec fn accepted_kinds() -> Seq<PropertyKind> {
        seq![PropertyKind::Relation]
    }

    open spec fn read_from(v: PropertyValue) -> Option<Vec<RelationValue>> {
        match v {
            PropertyValue::Relation { relation } => relation,
            _ => arbitrary(),
        }
    }

    fn from_property_value(v: PropertyValue) -> (r: Result<Option<Vec<RelationValue>>, WrongPropertyTypeError>) {
        let ghost accepted = Self::accepted_kinds();
        assert(accepted[0] == PropertyKind::Relation);
        match v {
            PropertyValue::Relation { relation } => Ok(relation),
            _ => {
                let actual = v.kind();
                assert(!accepted.contains(actual));
                Err(wrong_type(kinds1(PropertyKind::Relation), actual))
            },
        }
    }
}

/// Read from Files.
impl FromPropertyValue for Option<Vec<FileReference>> {
    open spec fn accepted_kinds() -> Seq<PropertyKind> {
        seq![PropertyKind::Files]
    }

    open spec fn read_from(v: PropertyValue) -> Option<Vec<FileReference>> {
        match v {
            PropertyValue::Files { files } => files,
            _ => arbitrary(),
        }
    }

    fn from_property_value(v: PropertyValue) -> (r: Result<Option<Vec<FileReference>>, WrongPropertyTypeError>) {
        let ghost accepted = Self::accepted_kinds();
        assert(accepted[0] == PropertyKind::Files);
        match v {
            PropertyValue::Files { files } => Ok(files),
            _ => {
                let actual = v.kind();
                assert(!accepted.contains(actual));
                Err(wrong_type(kinds1(PropertyKind::Files), actual))
            },
        }
    }
}

/// Read from Checkbox.
impl FromPropertyValue for bool {
    open spec fn accepted_kinds() -> Seq<PropertyKind> {
        seq![PropertyKind::Checkbox]
    }

    open spec fn read_from(v: PropertyValue) -> bool {
        match v {
            PropertyValue::Checkbox { checkbox } => checkbox,
            _ => arbitrary(),
        }
    }

    fn from_property_value(v: PropertyValue) -> (r: Result<bool, WrongPropertyTypeError>) {
        let ghost accepted = Self::accepted_kinds();
        assert(accepted[0] == PropertyKind::Checkbox);
        match v {
            PropertyValue::Checkbox { checkbox } => Ok(checkbox),
            _ => {
                let actual = v.kind();
                assert(!accepted.contains(actual));
                Err(wrong_type(kinds1(PropertyKind::Checkbox), actual))
            },
        }
    }
}

/// Read from Url, Email, PhoneNumber.
impl FromPropertyValue for Option<String> {
    open spec fn accepted_kinds() -> Seq<PropertyKind> {
        seq![PropertyKind::Url, PropertyKind::Email, PropertyKind::PhoneNumber]
    }

    open spec fn read_from(v: PropertyValue) -> Option<String> {
        match v {
            PropertyValue::Url { url } => url,
            PropertyValue::Email { email } => email,
            PropertyValue::PhoneNumber { phone_number } => phone_number,
            _ => arbitrary(),
        }
    }

    fn from_property_value(v: PropertyValue) -> (r: Result<Option<String>, WrongPropertyTypeError>) {
        let ghost accepted = Self::accepted_kinds();
        assert(accepted[0] == PropertyKind::Url);
        assert(accepted[1] == PropertyKind::Email);
        assert(accepted[2] == PropertyKind::PhoneNumber);
        match v {
            PropertyValue::Url { url } => Ok(url),
            PropertyValue::Email { email } => Ok(email),
            PropertyValue::PhoneNumber { phone_number } => Ok(phone_number),
            _ => {
                let actual = v.kind();
                assert(!accepted.contains(actual));
                Err(wrong_type(kinds3(PropertyKind::Url, PropertyKind::Email, PropertyKind::PhoneNumber), actual))
            },
        }
    }
}

/// Read from CreatedTime, LastEditedTime.
impl FromPropertyValue for Timestamp {
    open spec fn accepted_kinds() -> Seq<PropertyKind> {
        seq![PropertyKind::CreatedTime, PropertyKind::LastEditedTime]
    }

    open spec fn read_from(v: PropertyValue) -> Timestamp {
        match v {
            PropertyValue::CreatedTime { created_time } => created_time,
            PropertyValue::LastEditedTime { last_edited_time } => last_edited_time,
            _ => arbitrary(),
        }
    }

    fn from_property_value(v: PropertyValue) -> (r: Result<Timestamp, WrongPropertyTypeError>) {
        let ghost accepted = Self::accepted_kinds();
        assert(accepted[0] == PropertyKind::CreatedTime);
        assert(accepted[1] == PropertyKind::LastEditedTime);
        match v {
            PropertyValue::CreatedTime { created_time } => Ok(created_time),
            PropertyValue::LastEditedTime { last_edited_time } => Ok(last_edited_time),
            _ => {
                let actual = v.kind();
                assert(!accepted.contains(actual));
                Err(wrong_type(kinds2(PropertyKind::CreatedTime, PropertyKind::LastEditedTime), actual))
            },
        }
    }
}

/// Read from CreatedBy, LastEditedBy.
impl FromPropertyValue for User {
    open spec fn accepted_kinds() -> Seq<PropertyKind> {
        seq![PropertyKind::CreatedBy, PropertyKind::LastEditedBy]
    }

    open spec fn read_from(v: PropertyValue) -> User {
        match v {
            PropertyValue::CreatedBy { created_by } => created_by,
            PropertyValue::LastEditedBy { last_edited_by } => last_edited_by,
            _ => arbitrary(),
        }
    }

    fn from_property_value(v: PropertyValue) -> (r: Result<User, WrongPropertyTypeError>) {
        let ghost accepted = Self::accepted_kinds();
        assert(accepted[0] == PropertyKind::CreatedBy);
        assert(accepted[1] == PropertyKind::LastEditedBy);
        match v {
            PropertyValue::CreatedBy { created_by } => Ok(created_by),
            PropertyValue::LastEditedBy { last_edited_by } => Ok(last_edited_by),
            _ => {
                let actual = v.kind();
                assert(!accepted.contains(actual));
                Err(wrong_type(kinds2(PropertyKind::CreatedBy, PropertyKind::LastEditedBy), actual))
            },
        }
    }
}

/// Read from People.
impl FromPropertyValue for Option<Vec<User>> {
    open spec fn accepted_kinds() -> Seq<PropertyKind> {
        seq![PropertyKind::People]
    }

    open spec fn read_from(v: PropertyValue) -> Option<Vec<User>> {
        match v {
            PropertyValue::People { people } => Some(people),
            _ => arbitrary(),
        }
    }

    fn from_property_value(v: PropertyValue) -> (r: Result<Option<Vec<User>>, WrongPropertyTypeError>) {
        let ghost accepted = Self::accepted_kinds();
        assert(accepted[0] == PropertyKind::People);
        match v {
            PropertyValue::People { people } => Ok(Some(people)),
            _ => {
                let actual = v.kind();
                assert(!accepted.contains(actual));
                Err(wrong_type(kinds1(PropertyKind::People), actual))
            },
        }
    }
}

/// Read from Rollup.
impl FromPropertyValue for Option<RollupValue> {
    open spec fn accepted_kinds() -> Seq<PropertyKind> {
        seq![PropertyKind::Rollup]
    }

    open spec fn read_from(v: PropertyValue) -> Option<RollupValue> {
        match v {
            PropertyValue::Rollup { rollup } => rollup,
            _ => arbitrary(),
        }
    }

    fn from_property_value(v: PropertyValue) -> (r: Result<Option<RollupValue>, WrongPropertyTypeError>) {
        let ghost accepted = Self::accepted_kinds();
        assert(accepted[0] == PropertyKind::Rollup);
        match v {
            PropertyValue::Rollup { rollup } => Ok(rollup),
            _ => {
                let actual = v.kind();
                assert(!accepted.contains(actual));
                Err(wrong_type(kinds1(PropertyKind::Rollup), actual))
            },
        }
    }
}

impl PropertyValue {
    /// Reads the value as any type that can be read from a property value.
    pub fn expect_value<T: FromPropertyValue>(self) -> (r: Result<T, WrongPropertyTypeError>)
        ensures
            T::accepted_kinds().contains(kind_of(self)) ==> r == Ok::<T, WrongPropertyTypeError>(
                T::read_from(self),
            ),
            !T::accepted_kinds().contains(kind_of(self)) ==> (r matches Err(e) && reports(
                e,
                T::accepted_kinds(),
                kind_of(self),
            )),
    {
        T::from_property_value(self)
    }

    /// Reads a Title value; fails for every other kind, also those that could
    /// be read as the same type.
    pub fn expect_title(self) -> (r: Result<Vec<RichText>, WrongPropertyTypeError>)
        ensures
            r is Ok <==> kind_of(self) == PropertyKind::Title,
            self matches PropertyValue::Title { title } ==> r == Ok::<Vec<RichText>, WrongPropertyTypeError>(title),
            r matches Err(e) ==> reports(e, seq![PropertyKind::Title], kind_of(self)),
    {
        match self {
            PropertyValue::Title { .. } => {
                let r = <Vec<RichText> as FromPropertyValue>::from_property_value(self);
                proof {
                    assert(<Vec<RichText> as FromPropertyValue>::accepted_kinds().contains(PropertyKind::Title)) by {
                        let s = <Vec<RichText> as FromPropertyValue>::accepted_kinds();
                        assert(exists|i: int| 0 <= i < s.len() && s[i] == PropertyKind::Title) by {
                            assert(s[0] == PropertyKind::Title);
                        }
                    }
                }
                r
            },
            _ => {
                let actual = self.kind();
                Err(wrong_type(kinds1(PropertyKind::Title), actual))
            },
        }
    }

    /// Reads a Text value; fails for every other kind, also those that could
    /// be read as the same type.
    pub fn expect_text(self) -> (r: Result<Vec<RichText>, WrongPropertyTypeError>)
        ensures
            r is Ok <==> kind_of(self) == PropertyKind::Text,
            self matches PropertyValue::Text { rich_text } ==> r == Ok::<Vec<RichText>, WrongPropertyTypeError>(rich_text),
            r matches Err(e) ==> reports(e, seq![PropertyKind::Text], kind_of(self)),
    {
        match self {
            PropertyValue::Text { .. } => {
                let r = <Vec<RichText> as FromPropertyValue>::from_property_value(self);
                proof {
                    assert(<Vec<RichText> as FromPropertyValue>::accepted_kinds().contains(PropertyKind::Text)) by {
                        let s = <Vec<RichText> as FromPropertyValue>::accepted_kinds();
                        assert(exists|i: int| 0 <= i < s.len() && s[i] == PropertyKind::Text) by {
                            assert(s[1] == PropertyKind::Text);
                        }
                    }
                }
                r
            },
            _ => {
                let actual = self.kind();
                Err(wrong_type(kinds1(PropertyKind::Text), actual))
            },
        }
    }

    /// Reads a Number value; fails for every other kind, also those that could
    /// be read as the same type.
    pub fn expect_number(self) -> (r: Result<Option<serde_json::Number>, WrongPropertyTypeError>)
        ensures
            r is Ok <==> kind_of(self) == PropertyKind::Number,
            self matches PropertyValue::Number { number } ==> r == Ok::<Option<serde_json::Number>, WrongPropertyTypeError>(number),
            r matches Err(e) ==> reports(e, seq![PropertyKind::Number], kind_of(self)),
    {
        match self {
            PropertyValue::Number { .. } => {
                let r = <Option<serde_json::Number> as FromPropertyValue>::from_property_value(self);
                proof {
                    assert(<Option<serde_json::Number> as FromPropertyValue>::accepted_kinds().contains(PropertyKind::Number)) by {
                        let s = <Option<serde_json::Number> as FromPropertyValue>::accepted_kinds();
                        assert(exists|i: int| 0 <= i < s.len() && s[i] == PropertyKind::Number) by {
                            assert(s[0] == PropertyKind::Number);
                        }
                    }
                }
                r
            },
            _ => {
                let actual = self.kind();
                Err(wrong_type(kinds1(PropertyKind::Number), actual))
            },
        }
    }

    /// Reads a Select value; fails for every other kind, also those that could
    /// be read as the same type.
    pub fn expect_select(self) -> (r: Result<Option<SelectedValue>, WrongPropertyTypeError>)
        ensures
            r is Ok <==> kind_of(self) == PropertyKind::Select,
            self matches PropertyValue::Select { select } ==> r == Ok::<Option<SelectedValue>, WrongPropertyTypeError>(select),
            r matches Err(e) ==> reports(e, seq![PropertyKind::Select], kind_of(self)),
    {
        match self {
            PropertyValue::Select { .. } => {
                let r = <Option<SelectedValue> as FromPropertyValue>::from_property_value(self);
                proof {
                    assert(<Option<SelectedValue> as FromPropertyValue>::accepted_kinds().contains(PropertyKind::Select)) by {
                        let s = <Option<SelectedValue> as FromPropertyValue>::accepted_kinds();
                        assert(exists|i: int| 0 <= i < s.len() && s[i] == PropertyKind::Select) by {
                            assert(s[0] == PropertyKind::Select);
                        }
                    }
                }
                r
            },
            _ => {
                let actual = self.kind();
                Err(wrong_type(kinds1(PropertyKind::Select), actual))
            },
        }
    }

    /// Reads a Status value; fails for every other kind, also those that could
    /// be read as the same type.
    pub fn expect_status(self) -> (r: Result<Option<SelectedValue>, WrongPropertyTypeError>)
        ensures
            r is Ok <==> kind_of(self) == PropertyKind::Status,
            self matches PropertyValue::Status { status } ==> r == Ok::<Option<SelectedValue>, WrongPropertyTypeError>(status),
            r matches Err(e) ==> reports(e, seq![PropertyKind::Status], kind_of(self)),
    {
        match self {
            PropertyValue::Status { .. } => {
                let r = <Option<SelectedValue> as FromPropertyValue>::from_property_value(self);
                proof {
                    assert(<Option<SelectedValue> as FromPropertyValue>::accepted_kinds().contains(PropertyKind::Status)) by {
                        let s = <Option<SelectedValue> as FromPropertyValue>::accepted_kinds();
                        assert(exists|i: int| 0 <= i < s.len() && s[i] == PropertyKind::Status) by {
                            assert(s[1] == PropertyKind::Status);
                        }
                    }
                }
                r
            },
            _ => {
                let actual = self.kind();
                Err(wrong_type(kinds1(PropertyKind::Status), actual))
            },
        }
    }

    /// Reads a MultiSelect value; fails for every other kind, also those that could
    /// be read as the same type.
    pub fn expect_multi_select(self) -> (r: Result<Option<Vec<SelectedValue>>, WrongPropertyTypeError>)
        ensures
            r is Ok <==> kind_of(self) == PropertyKind::MultiSelect,
            self matches PropertyValue::MultiSelect { multi_select } ==> r == Ok::<Option<Vec<SelectedValue>>, WrongPropertyTypeError>(multi_select),
            r matches Err(e) ==> reports(e, seq![PropertyKind::MultiSelect], kind_of(self)),
    {
        match self {
            PropertyValue::MultiSelect { .. } => {
                let r = <Option<Vec<SelectedValue>> as FromPropertyValue>::from_property_value(self);
                proof {
                    assert(<Option<Vec<SelectedValue>> as FromPropertyValue>::accepted_kinds().contains(PropertyKind::MultiSelect)) by {
                        let s = <Option<Vec<SelectedValue>> as FromPropertyValue>::accepted_kinds();
                        assert(exists|i: int| 0 <= i < s.len() && s[i] == PropertyKind::MultiSelect) by {
                            assert(s[0] == PropertyKind::MultiSelect);
                        }
                    }
                }
                r
            },
            _ => {
                let actual = self.kind();
                Err(wrong_type(kinds1(PropertyKind::MultiSelect), actual))
            },
        }
    }

    /// Reads a Date value; fails for every other kind, also those that could
    /// be read as the same type.
    pub fn expect_date(self) -> (r: Result<Option<DateValue>, WrongPropertyTypeError>)
        ensures
            r is Ok <==> kind_of(self) == PropertyKind::Date,
            self matches PropertyValue::Date { date } ==> r == Ok::<Option<DateValue>, WrongPropertyTypeError>(date),
            r matches Err(e) ==> reports(e, seq![PropertyKind::Date], kind_of(self)),
    {
        match self {
            PropertyValue::Date { .. } => {
                let r = <Option<DateValue> as FromPropertyValue>::from_property_value(self);
                proof {
                    assert(<Option<DateValue> as FromPropertyValue>::accepted_kinds().contains(PropertyKind::Date)) by {
                        let s = <Option<DateValue> as FromPropertyValue>::accepted_kinds();
                        assert(exists|i: int| 0 <= i < s.len() && s[i] == PropertyKind::Date) by {
                            assert(s[0] == PropertyKind::Date);
                        }
                    }
                }
                r
            },
            _ => {
                let actual = self.kind();
                Err(wrong_type(kinds1(PropertyKind::Date), actual))
            },
        }
    }

    /// Reads a People value; fails for every other kind, also those that could
    /// be read as the same type.
    pub fn expect_people(self) -> (r: Result<Option<Vec<User>>, WrongPropertyTypeError>)
        ensures
            r is Ok <==> kind_of(self) == PropertyKind::People,
            self matches PropertyValue::People { people } ==> r == Ok::<Option<Vec<User>>, WrongPropertyTypeError>(Some(people)),
            r matches Err(e) ==> reports(e, seq![PropertyKind::People], kind_of(self)),
    {
        match self {
            PropertyValue::People { .. } => {
                let r = <Option<Vec<User>> as FromPropertyValue>::from_property_value(self);
                proof {
                    assert(<Option<Vec<User>> as FromPropertyValue>::accepted_kinds().contains(PropertyKind::People)) by {
                        let s = <Option<Vec<User>> as FromPropertyValue>::accepted_kinds();
                        assert(exists|i: int| 0 <= i < s.len() && s[i] == PropertyKind::People) by {
                            assert(s[0] == PropertyKind::People);
                        }
                    }
                }
                r
            },
            _ => {
                let actual = self.kind();
                Err(wrong_type(kinds1(PropertyKind::People), actual))
            },
        }
    }

    /// Reads a Files value; fails for every other kind, also those that could
    /// be read as the same type.
    pub fn expect_files(self) -> (r: Result<Option<Vec<FileReference>>, WrongPropertyTypeError>)
        ensures
            r is Ok <==> kind_of(self) == PropertyKind::Files,
            self matches PropertyValue::Files { files } ==> r == Ok::<Option<Vec<FileReference>>, WrongPropertyTypeError>(files),
            r matches Err(e) ==> reports(e, seq![PropertyKind::Files], kind_of(self)),
    {
        match self {
            PropertyValue::Files { .. } => {
                let r = <Option<Vec<FileReference>> as FromPropertyValue>::from_property_value(self);
                proof {
                    assert(<Option<Vec<FileReference>> as FromPropertyValue>::accepted_kinds().contains(PropertyKind::Files)) by {
                        let s = <Option<Vec<FileReference>> as FromPropertyValue>::accepted_kinds();
                        assert(exists|i: int| 0 <= i < s.len() && s[i] == PropertyKind::Files) by {
                            assert(s[0] == PropertyKind::Files);
                        }
                    }
                }
                r
            },
            _ => {
                let actual = self.kind();
                Err(wrong_type(kinds1(PropertyKind::Files), actual))
            },
        }
    }

    /// Reads a Checkbox value; fails for every other kind, also those that could
    /// be read as the same type.
    pub fn expect_checkbox(self) -> (r: Result<bool, WrongPropertyTypeError>)
        ensures
            r is Ok <==> kind_of(self) == PropertyKind::Checkbox,
            self matches PropertyValue::Checkbox { checkbox } ==> r == Ok::<bool, WrongPropertyTypeError>(checkbox),
            r matches Err(e) ==> reports(e, seq![PropertyKind::Checkbox], kind_of(self)),
    {
        match self {
            PropertyValue::Checkbox { .. } => {
                let r = <bool as FromPropertyValue>::from_property_value(self);
                proof {
                    assert(<bool as FromPropertyValue>::accepted_kinds().contains(PropertyKind::Checkbox)) by {
                        let s = <bool as FromPropertyValue>::accepted_kinds();
                        assert(exists|i: int| 0 <= i < s.len() && s[i] == PropertyKind::Checkbox) by {
                            assert(s[0] == PropertyKind::Checkbox);
                        }
                    }
                }
                r
            },
            _ => {
                let actual = self.kind();
                Err(wrong_type(kinds1(PropertyKind::Checkbox), actual))
            },
        }
    }

    /// Reads a Url value; fails for every other kind, also those that could
    /// be read as the same type.
    pub fn expect_url(self) -> (r: Result<Option<String>, WrongPropertyTypeError>)
        ensures
            r is Ok <==> kind_of(self) == PropertyKind::Url,
            self matches PropertyValue::Url { url } ==> r == Ok::<Option<String>, WrongPropertyTypeError>(url),
            r matches Err(e) ==> reports(e, seq![PropertyKind::Url], kind_of(self)),
    {
        match self {
            PropertyValue::Url { .. } => {
                let r = <Option<String> as FromPropertyValue>::from_property_value(self);
                proof {
                    assert(<Option<String> as FromPropertyValue>::accepted_kinds().contains(PropertyKind::Url)) by {
                        let s = <Option<String> as FromPropertyValue>::accepted_kinds();
                        assert(exists|i: int| 0 <= i < s.len() && s[i] == PropertyKind::Url) by {
                            assert(s[0] == PropertyKind::Url);
                        }
                    }
                }
                r
            },
            _ => {
                let actual = self.kind();
                Err(wrong_type(kinds1(PropertyKind::Url), actual))
            },
        }
    }

    /// Reads a Email value; fails for every other kind, also those that could
    /// be read as the same type.
    pub fn expect_email(self) -> (r: Result<Option<String>, WrongPropertyTypeError>)
        ensures
            r is Ok <==> kind_of(self) == PropertyKind::Email,
            self matches PropertyValue::Email { email } ==> r == Ok::<Option<String>, WrongPropertyTypeError>(email),
            r matches Err(e) ==> reports(e, seq![PropertyKind::Email], kind_of(self)),
    {
        match self {
            PropertyValue::Email { .. } => {
                let r = <Option<String> as FromPropertyValue>::from_property_value(self);
                proof {
                    assert(<Option<String> as FromPropertyValue>::accepted_kinds().contains(PropertyKind::Email)) by {
                        let s = <Option<String> as FromPropertyValue>::accepted_kinds();
                        assert(exists|i: int| 0 <= i < s.len() && s[i] == PropertyKind::Email) by {
                            assert(s[1] == PropertyKind::Email);
                        }
                    }
                }
                r
            },
            _ => {
                let actual = self.kind();
                Err(wrong_type(kinds1(PropertyKind::Email), actual))
            },
        }
    }

    /// Reads a PhoneNumber value; fails for every other kind, also those that could
    /// be read as the same type.
    pub fn expect_phone_number(self) -> (r: Result<Option<String>, WrongPropertyTypeError>)
        ensures
            r is Ok <==> kind_of(self) == PropertyKind::PhoneNumber,
            self matches PropertyValue::PhoneNumber { phone_number } ==> r == Ok::<Option<String>, WrongPropertyTypeError>(phone_number),
            r matches Err(e) ==> reports(e, seq![PropertyKind::PhoneNumber], kind_of(self)),
    {
        match self {
            PropertyValue::PhoneNumber { .. } => {
                let r = <Option<String> as FromPropertyValue>::from_property_value(self);
                proof {
                    assert(<Option<String> as FromPropertyValue>::accepted_kinds().contains(PropertyKind::PhoneNumber)) by {
                        let s = <Option<String> as FromPropertyValue>::accepted_kinds();
                        assert(exists|i: int| 0 <= i < s.len() && s[i] == PropertyKind::PhoneNumber) by {
                            assert(s[2] == PropertyKind::PhoneNumber);
                        }
                    }
                }
                r
            },
            _ => {
                let actual = self.kind();
                Err(wrong_type(kinds1(PropertyKind::PhoneNumber), actual))
            },
        }
    }

    /// Reads a Formula value; fails for every other kind, also those that could
    /// be read as the same type.
    pub fn expect_formula(self) -> (r: Result<FormulaResultValue, WrongPropertyTypeError>)
        ensures
            r is Ok <==> kind_of(self) == PropertyKind::Formula,
            self matches PropertyValue::Formula { formula } ==> r == Ok::<FormulaResultValue, WrongPropertyTypeError>(formula),
            r matches Err(e) ==> reports(e, seq![PropertyKind::Formula], kind_of(self)),
    {
        match self {
            PropertyValue::Formula { .. } => {
                let r = <FormulaResultValue as FromPropertyValue>::from_property_value(self);
                proof {
                    assert(<FormulaResultValue as FromPropertyValue>::accepted_kinds().contains(PropertyKind::Formula)) by {
                        let s = <FormulaResultValue as FromPropertyValue>::accepted_kinds();
                        assert(exists|i: int| 0 <= i < s.len() && s[i] == PropertyKind::Formula) by {
                            assert(s[0] == PropertyKind::Formula);
                        }
                    }
                }
                r
            },
            _ => {
                let actual = self.kind();
                Err(wrong_type(kinds1(PropertyKind::Formula), actual))
            },
        }
    }

    /// Reads a Relation value; fails for every other kind, also those that could
    /// be read as the same type.
    pub fn expect_relation(self) -> (r: Result<Option<Vec<RelationValue>>, WrongPropertyTypeError>)
        ensures
            r is Ok <==> kind_of(self) == PropertyKind::Relation,
            self matches PropertyValue::Relation { relation } ==> r == Ok::<Option<Vec<RelationValue>>, WrongPropertyTypeError>(relation),
            r matches Err(e) ==> reports(e, seq![PropertyKind::Relation], kind_of(self)),
    {
        match self {
            PropertyValue::Relation { .. } => {
                let r = <Option<Vec<RelationValue>> as FromPropertyValue>::from_property_value(self);
                proof {
                    assert(<Option<Vec<RelationValue>> as FromPropertyValue>::accepted_kinds().contains(PropertyKind::Relation)) by {
                        let s = <Option<Vec<RelationValue>> as FromPropertyValue>::accepted_kinds();
                        assert(exists|i: int| 0 <= i < s.len() && s[i] == PropertyKind::Relation) by {
                            assert(s[0] == PropertyKind::Relation);
                        }
                    }
                }
                r
            },
            _ => {
                let actual = self.kind();
                Err(wrong_type(kinds1(PropertyKind::Relation), actual))
            },
        }
    }

    /// Reads a Rollup value; fails for every other kind, also those that could
    /// be read as the same type.
    pub fn expect_rollup(self) -> (r: Result<Option<RollupValue>, WrongPropertyTypeError>)
        ensures
            r is Ok <==> kind_of(self) == PropertyKind::Rollup,
            self matches PropertyValue::Rollup { rollup } ==> r == Ok::<Option<RollupValue>, WrongPropertyTypeError>(rollup),
            r matches Err(e) ==> reports(e, seq![PropertyKind::Rollup], kind_of(self)),
    {
        match self {
            PropertyValue::Rollup { .. } => {
                let r = <Option<RollupValue> as FromPropertyValue>::from_property_value(self);
                proof {
                    assert(<Option<RollupValue> as FromPropertyValue>::accepted_kinds().contains(PropertyKind::Rollup)) by {
                        let s = <Option<RollupValue> as FromPropertyValue>::accepted_kinds();
                        assert(exists|i: int| 0 <= i < s.len() && s[i] == PropertyKind::Rollup) by {
                            assert(s[0] == PropertyKind::Rollup);
                        }
                    }
                }
                r
            },
            _ => {
                let actual = self.kind();
                Err(wrong_type(kinds1(PropertyKind::Rollup), actual))
            },
        }
    }

    /// Reads a CreatedTime value; fails for every other kind, also those that could
    /// be read as the same type.
    pub fn expect_created_time(self) -> (r: Result<Timestamp, WrongPropertyTypeError>)
        ensures
            r is Ok <==> kind_of(self) == PropertyKind::CreatedTime,
            self matches PropertyValue::CreatedTime { created_time } ==> r == Ok::<Timestamp, WrongPropertyTypeError>(created_time),
            r matches Err(e) ==> reports(e, seq![PropertyKind::CreatedTime], kind_of(self)),
    {
        match self {
            PropertyValue::CreatedTime { .. } => {
                let r = <Timestamp as FromPropertyValue>::from_property_value(self);
                proof {
                    assert(<Timestamp as FromPropertyValue>::accepted_kinds().contains(PropertyKind::CreatedTime)) by {
                        let s = <Timestamp as FromPropertyValue>::accepted_kinds();
                        assert(exists|i: int| 0 <= i < s.len() && s[i] == PropertyKind::CreatedTime) by {
                            assert(s[0] == PropertyKind::CreatedTime);
                        }
                    }
                }
                r
            },
            _ => {
                let actual = self.kind();
                Err(wrong_type(kinds1(PropertyKind::CreatedTime), actual))
            },
        }
    }

    /// Reads a CreatedBy value; fails for every other kind, also those that could
    /// be read as the same type.
    pub fn expect_created_by(self) -> (r: Result<User, WrongPropertyTypeError>)
        ensures
            r is Ok <==> kind_of(self) == PropertyKind::CreatedBy,
            self matches PropertyValue::CreatedBy { created_by } ==> r == Ok::<User, WrongPropertyTypeError>(created_by),
            r matches Err(e) ==> reports(e, seq![PropertyKind::CreatedBy], kind_of(self)),
    {
        match self {
            PropertyValue::CreatedBy { .. } => {
                let r = <User as FromPropertyValue>::from_property_value(self);
                proof {
                    assert(<User as FromPropertyValue>::accepted_kinds().contains(PropertyKind::CreatedBy)) by {
                        let s = <User as FromPropertyValue>::accepted_kinds();
                        assert(exists|i: int| 0 <= i < s.len() && s[i] == PropertyKind::CreatedBy) by {
                            assert(s[0] == PropertyKind::CreatedBy);
                        }
                    }
                }
                r
            },
            _ => {
                let actual = self.kind();
                Err(wrong_type(kinds1(PropertyKind::CreatedBy), actual))
            },
        }
    }

    /// Reads a LastEditedTime value; fails for every other kind, also those that could
    /// be read as the same type.
    pub fn expect_last_edited_time(self) -> (r: Result<Timestamp, WrongPropertyTypeError>)
        ensures
            r is Ok <==> kind_of(self) == PropertyKind::LastEditedTime,
            self matches PropertyValue::LastEditedTime { last_edited_time } ==> r == Ok::<Timestamp, WrongPropertyTypeError>(last_edited_time),
            r matches Err(e) ==> reports(e, seq![PropertyKind::LastEditedTime], kind_of(self)),
    {
        match self {
            PropertyValue::LastEditedTime { .. } => {
                let r = <Timestamp as FromPropertyValue>::from_property_value(self);
                proof {
                    assert(<Timestamp as FromPropertyValue>::accepted_kinds().contains(PropertyKind::LastEditedTime)) by {
                        let s = <Timestamp as FromPropertyValue>::accepted_kinds();
                        assert(exists|i: int| 0 <= i < s.len() && s[i] == PropertyKind::LastEditedTime) by {
                            assert(s[1] == PropertyKind::LastEditedTime);
                        }
                    }
                }
                r
            },
            _ => {
                let actual = self.kind();
                Err(wrong_type(kinds1(PropertyKind::LastEditedTime), actual))
            },
        }
    }

    /// Reads a LastEditedBy value; fails for every other kind, also those that could
    /// be read as the same type.
    pub fn expect_last_edited_by(self) -> (r: Result<User, WrongPropertyTypeError>)
        ensures
            r is Ok <==> kind_of(self) == PropertyKind::LastEditedBy,
            self matches PropertyValue::LastEditedBy { last_edited_by } ==> r == Ok::<User, WrongPropertyTypeError>(last_edited_by),
            r matches Err(e) ==> reports(e, seq![PropertyKind::LastEditedBy], kind_of(self)),
    {
        match self {
            PropertyValue::LastEditedBy { .. } => {
                let r = <User as FromPropertyValue>::from_property_value(self);
                proof {
                    assert(<User as FromPropertyValue>::accepted_kinds().contains(PropertyKind::LastEditedBy)) by {
                        let s = <User as FromPropertyValue>::accepted_kinds();
                        assert(exists|i: int| 0 <= i < s.len() && s[i] == PropertyKind::LastEditedBy) by {
                            assert(s[1] == PropertyKind::LastEditedBy);
                        }
                    }
                }
                r
            },
            _ => {
                let actual = self.kind();
                Err(wrong_type(kinds1(PropertyKind::LastEditedBy), actual))
            },
        }
    }

    /// Reads a Button value, which carries nothing.
    pub fn expect_button(self) -> (r: Result<(), WrongPropertyTypeError>)
        ensures
            r is Ok <==> kind_of(self) == PropertyKind::Button,
            r matches Err(e) ==> reports(e, seq![PropertyKind::Button], kind_of(self)),
    {
        match self {
            PropertyValue::Button => Ok(()),
            _ => {
                let actual = self.kind();
                Err(wrong_type(kinds1(PropertyKind::Button), actual))
            },
        }
    }
}

} // verus!
