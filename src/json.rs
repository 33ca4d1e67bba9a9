use vstd::prelude::*;


verus! {

/// Declares the number type of serde_json, which JSON trees carry unchanged.
#[verifier::external_type_specification]
#[verifier::external_body]
pub struct ExNumber(serde_json::Number);

/// Relies on the derived `Clone` of `serde_json::Number`, which copies its
/// one field.
pub assume_specification[ <serde_json::Number as Clone>::clone ](n: &serde_json::Number) -> (r:
    serde_json::Number)
    ensures
        r == *n,
;

/// A JSON tree, as the wire format of the service carries it.
///
/// Objects keep their members in order; a key is looked up at its first
/// occurrence.
#[derive(Debug, PartialEq, Eq)]
pub enum JsonValue {
    Null,
    Bool(bool),
    Number(serde_json::Number),
    String(String),
    Array(Vec<JsonValue>),
    Object(Vec<(String, JsonValue)>),
}

/// Why a JSON tree does not read as a property value or a property schema.
#[derive(Clone, Debug, PartialEq, Eq)]
pub enum DecodeError {
    /// The tree has no string member `type`.
    MissingTag,
    /// `type` names no kind of property.
    UnknownTag { tag: String },
    /// The content does not read as the kind that `type` names.
    Malformed { tag: String },
    /// A property's `id` is missing or not a string.
    MissingId,
}

/// The mathematical model of a [`JsonValue`].
pub enum Json {
    Null,
    Bool(bool),
    Number(serde_json::Number),
    Str(Seq<char>),
    Array(Seq<Json>),
    Object(Seq<(Seq<char>, Json)>),
}

impl JsonValue {
    pub open spec fn view(&self) -> Json
        decreases self,
    {
        match self {
            JsonValue::Null => Json::Null,
            JsonValue::Bool(b) => Json::Bool(*b),
            JsonValue::Number(n) => Json::Number(*n),
            JsonValue::String(s) => Json::Str(s@),
            JsonValue::Array(items) => Json::Array(
                Seq::new(
                    items@.len(),
                    |i: int|
                        if 0 <= i < items@.len() {
                            items@[i].view()
                        } else {
                            Json::Null
                        },
                ),
            ),
            JsonValue::Object(members) => Json::Object(
                Seq::new(
                    members@.len(),
                    |i: int|
                        if 0 <= i < members@.len() {
                            (members@[i].0@, members@[i].1.view())
                        } else {
                            (Seq::empty(), Json::Null)
                        },
                ),
            ),
        }
    }
}

/// The model of the members of an object.
pub open spec fn members_model(ms: Seq<(String, JsonValue)>) -> Seq<(Seq<char>, Json)> {
    Seq::new(ms.len(), |i: int| (ms[i].0@, ms[i].1@))
}

/// The value of the first member of `ms` named `key`.
pub open spec fn member(ms: Seq<(Seq<char>, Json)>, key: Seq<char>) -> Option<Json>
    decreases ms.len(),
{
    if ms.len() == 0 {
        None
    } else if ms[0].0 == key {
        Some(ms[0].1)
    } else {
        member(ms.drop_first(), key)
    }
}

impl Json {
    /// The member `key` of an object; nothing for any other value.
    pub open spec fn field(self, key: Seq<char>) -> Option<Json> {
        match self {
            Json::Object(ms) => member(ms, key),
            _ => None,
        }
    }
}

/// A string, read as its characters.
pub open spec fn read_str(j: Json) -> Option<Seq<char>> {
    match j {
        Json::Str(s) => Some(s),
        _ => None,
    }
}

/// A boolean.
pub open spec fn read_bool(j: Json) -> Option<bool> {
    match j {
        Json::Bool(b) => Some(b),
        _ => None,
    }
}

/// A number.
pub open spec fn read_number(j: Json) -> Option<serde_json::Number> {
    match j {
        Json::Number(n) => Some(n),
        _ => None,
    }
}

/// An optional field: absent or `null` reads as `None`, anything else is
/// read by `f`.
pub open spec fn optional<A>(j: Json, key: Seq<char>, f: spec_fn(Json) -> Option<A>) -> Option<
    Option<A>,
> {
    match j.field(key) {
        None => Some(None),
        Some(Json::Null) => Some(None),
        Some(v) => match f(v) {
            Some(a) => Some(Some(a)),
            None => None,
        },
    }
}

/// An array whose every element is read by `f`.
pub open spec fn read_array<A>(j: Json, f: spec_fn(Json) -> Option<A>) -> Option<Seq<A>> {
    match j {
        Json::Array(items) => if forall|i: int| 0 <= i < items.len() ==> (#[trigger] f(items[i])) is Some {
            Some(Seq::new(items.len(), |i: int| f(items[i])->0))
        } else {
            None
        },
        _ => None,
    }
}

/// The JSON form of a sequence.
pub open spec fn array_of<A>(s: Seq<A>, f: spec_fn(A) -> Json) -> Json {
    Json::Array(s.map_values(f))
}

/// Reading back the array form of a sequence gives the sequence.
pub proof fn lemma_array_round_trip<A>(s: Seq<A>, f: spec_fn(A) -> Json, g: spec_fn(Json) -> Option<A>)
    requires
        forall|i: int| 0 <= i < s.len() ==> g(#[trigger] f(s[i])) == Some(s[i]),
    ensures
        read_array(array_of(s, f), g) == Some(s),
{
    let items = s.map_values(f);
    assert forall|i: int| 0 <= i < items.len() implies (#[trigger] g(items[i])) is Some by {
        assert(items[i] == f(s[i]));
    }
    assert(Seq::new(items.len(), |i: int| g(items[i])->0) =~= s) by {
        assert forall|i: int| 0 <= i < s.len() implies g(items[i])->0 == s[i] by {
            assert(items[i] == f(s[i]));
        }
    }
}

/// A member that no member of `ms` is named after is not found.
pub proof fn lemma_member_missing(ms: Seq<(Seq<char>, Json)>, key: Seq<char>)
    requires
        forall|i: int| 0 <= i < ms.len() ==> (#[trigger] ms[i]).0 != key,
    ensures
        member(ms, key) is None,
    decreases ms.len(),
{
    if ms.len() > 0 {
        let rest = ms.drop_first();
        assert forall|i: int| 0 <= i < rest.len() implies (#[trigger] rest[i]).0 != key by {
            assert(rest[i] == ms[i + 1]);
        }
        lemma_member_missing(rest, key);
    }
}

/// The first member named `key` sits at some index of `ms`.
pub proof fn lemma_member_index(ms: Seq<(Seq<char>, Json)>, key: Seq<char>) -> (i: int)
    requires
        member(ms, key) is Some,
    ensures
        0 <= i < ms.len(),
        ms[i].1 == member(ms, key)->0,
    decreases ms.len(),
{
    if ms[0].0 == key {
        0
    } else {
        let k = lemma_member_index(ms.drop_first(), key);
        k + 1
    }
}

/// A member of an object is smaller than the object.
pub proof fn lemma_field_decreases(j: Json, key: Seq<char>)
    requires
        j.field(key) is Some,
    ensures
        decreases_to!(j => j.field(key)->0),
{
    let ms = j->Object_0;
    let i = lemma_member_index(ms, key);
    assert(decreases_to!(j => ms));
    assert(decreases_to!(ms => ms[i]));
    assert(decreases_to!(ms[i] => ms[i].1));
}

impl JsonValue {
    /// The member `key` of an object, at its first occurrence.
    pub fn field<'a>(&'a self, key: &str) -> (r: Option<&'a JsonValue>)
        ensures
            r is None <==> self@.field(key@) is None,
            r matches Some(v) ==> self@.field(key@) == Some(v@),
    {
        match self {
            JsonValue::Object(ms) => {
                let ghost model = members_model(ms@);
                assert(self@->Object_0 =~= model);
                assert(model.skip(0) =~= model);
                assert(self@ == Json::Object(model));
                let mut i: usize = 0;
                while i < ms.len()
                    invariant
                        0 <= i <= ms.len(),
                        model == members_model(ms@),
                        self@ == Json::Object(model),
                        member(model, key@) == member(model.skip(i as int), key@),
                    decreases ms.len() - i,
                {
                    if text_is(&ms[i].0, key) {
                        assert(model.skip(i as int)[0] == model[i as int]);
                        assert(model[i as int] == (ms@[i as int].0@, ms@[i as int].1@));
                        return Some(&ms[i].1);
                    }
                    assert(model.skip(i as int).drop_first() =~= model.skip(i + 1));
                    i += 1;
                }
                None
            },
            _ => None,
        }
    }
}

/// Whether `s` holds exactly the characters of `lit`.
pub fn text_is(s: &String, lit: &str) -> (r: bool)
    ensures
        r == (s@ == lit@),
{
    let owned = lit.to_owned();
    *s == owned
}

/// A JSON string holding the characters of `s`.
pub fn string_value(s: &str) -> (r: JsonValue)
    ensures
        r@ == Json::Str(s@),
{
    JsonValue::String(s.to_owned())
}

/// Appends the member `key: v` to the members of an object under
/// construction.
pub fn add_member(ms: &mut Vec<(String, JsonValue)>, key: &str, v: JsonValue)
    ensures
        members_model(final(ms)@) == members_model(old(ms)@).push((key@, v@)),
{
    let ghost v_model = v@;
    ms.push((key.to_owned(), v));
    assert(members_model(ms@) =~= members_model(old(ms)@).push((key@, v_model)));
}

/// The object made of the members `ms`, in order.
pub fn object(ms: Vec<(String, JsonValue)>) -> (r: JsonValue)
    ensures
        r@ == Json::Object(members_model(ms@)),
{
    let r = JsonValue::Object(ms);
    assert(r@->Object_0 =~= members_model(ms@));
    r
}

/// An object with no members yet.
pub fn new_members() -> (r: Vec<(String, JsonValue)>)
    ensures
        members_model(r@) == Seq::<(Seq<char>, Json)>::empty(),
{
    let r: Vec<(String, JsonValue)> = Vec::new();
    assert(members_model(r@) =~= Seq::<(Seq<char>, Json)>::empty());
    r
}

/// A string member that must be present.
pub open spec fn str_field(j: Json, key: Seq<char>) -> Option<Seq<char>> {
    match j.field(key) {
        Some(v) => read_str(v),
        None => None,
    }
}

/// A boolean member that must be present.
pub open spec fn bool_field(j: Json, key: Seq<char>) -> Option<bool> {
    match j.field(key) {
        Some(v) => read_bool(v),
        None => None,
    }
}

/// An optional string member.
pub open spec fn opt_str_field(j: Json, key: Seq<char>) -> Option<Option<Seq<char>>> {
    optional(j, key, |v: Json| read_str(v))
}

/// An optional boolean member.
pub open spec fn opt_bool_field(j: Json, key: Seq<char>) -> Option<Option<bool>> {
    optional(j, key, |v: Json| read_bool(v))
}

/// An optional number member.
pub open spec fn opt_number_field(j: Json, key: Seq<char>) -> Option<Option<serde_json::Number>> {
    optional(j, key, |v: Json| read_number(v))
}

/// The JSON form of an optional string.
pub open spec fn str_or_null(s: Option<Seq<char>>) -> Json {
    match s {
        Some(x) => Json::Str(x),
        None => Json::Null,
    }
}

/// The JSON form of an optional boolean.
pub open spec fn bool_or_null(b: Option<bool>) -> Json {
    match b {
        Some(x) => Json::Bool(x),
        None => Json::Null,
    }
}

/// The JSON form of an optional number.
pub open spec fn num_or_null(n: Option<serde_json::Number>) -> Json {
    match n {
        Some(x) => Json::Number(x),
        None => Json::Null,
    }
}

/// Reads the string member `key`.
pub fn string_field(j: &JsonValue, key: &str) -> (r: Option<String>)
    ensures
        r.deep_view() == str_field(j@, key@),
{
    match j.field(key) {
        Some(JsonValue::String(s)) => Some(s.clone()),
        _ => None,
    }
}

/// Reads the boolean member `key`.
pub fn boolean_field(j: &JsonValue, key: &str) -> (r: Option<bool>)
    ensures
        r == bool_field(j@, key@),
{
    match j.field(key) {
        Some(JsonValue::Bool(b)) => Some(*b),
        _ => None,
    }
}

/// Reads the optional string member `key`; `Some(None)` when it is absent or
/// `null`, `None` when it is something else.
pub fn optional_string_field(j: &JsonValue, key: &str) -> (r: Option<Option<String>>)
    ensures
        r.deep_view() == opt_str_field(j@, key@),
{
    match j.field(key) {
        None => Some(None),
        Some(JsonValue::Null) => Some(None),
        Some(JsonValue::String(s)) => Some(Some(s.clone())),
        Some(_) => None,
    }
}

/// Reads the optional boolean member `key`.
pub fn optional_bool_field(j: &JsonValue, key: &str) -> (r: Option<Option<bool>>)
    ensures
        r == opt_bool_field(j@, key@),
{
    match j.field(key) {
        None => Some(None),
        Some(JsonValue::Null) => Some(None),
        Some(JsonValue::Bool(b)) => Some(Some(*b)),
        Some(_) => None,
    }
}

/// Reads the optional number member `key`.
pub fn optional_number_field(j: &JsonValue, key: &str) -> (r: Option<Option<serde_json::Number>>)
    ensures
        r == opt_number_field(j@, key@),
{
    match j.field(key) {
        None => Some(None),
        Some(JsonValue::Null) => Some(None),
        Some(JsonValue::Number(n)) => Some(Some(n.clone())),
        Some(_) => None,
    }
}

/// The JSON form of an optional string.
pub fn string_or_null(s: &Option<String>) -> (r: JsonValue)
    ensures
        r@ == str_or_null(s.deep_view()),
{
    match s {
        Some(x) => JsonValue::String(x.clone()),
        None => JsonValue::Null,
    }
}

/// The JSON form of an optional boolean.
pub fn boolean_or_null(b: Option<bool>) -> (r: JsonValue)
    ensures
        r@ == bool_or_null(b),
{
    match b {
        Some(x) => JsonValue::Bool(x),
        None => JsonValue::Null,
    }
}

/// The JSON form of an optional number.
pub fn number_or_null(n: &Option<serde_json::Number>) -> (r: JsonValue)
    ensures
        r@ == num_or_null(*n),
{
    match n {
        Some(x) => JsonValue::Number(x.clone()),
        None => JsonValue::Null,
    }
}

/// The member at index `i` is the one found under its key when no earlier
/// member has that key.
pub proof fn lemma_member_at(ms: Seq<(Seq<char>, Json)>, i: int)
    requires
        0 <= i < ms.len(),
        forall|k: int| 0 <= k < i ==> (#[trigger] ms[k]).0 != ms[i].0,
    ensures
        member(ms, ms[i].0) == Some(ms[i].1),
    decreases i,
{
    if i > 0 {
        let rest = ms.drop_first();
        assert(rest[i - 1] == ms[i]);
        assert forall|k: int| 0 <= k < i - 1 implies (#[trigger] rest[k]).0 != rest[i - 1].0 by {
            assert(rest[k] == ms[k + 1]);
        }
        lemma_member_at(rest, i - 1);
        assert(ms[0].0 != ms[i].0);
    }
}

/// A type with a wire form: `enc_spec` says what a value is written as, and
/// `dec_spec` what a JSON tree reads as (`None` when it is rejected).
pub trait Codec: Sized + DeepView {
    spec fn enc_spec(m: Self::V) -> Json;

    spec fn dec_spec(j: Json) -> Option<Self::V>;

    /// The values whose dates and instants have four-digit years; for a type
    /// without dates, every value.
    spec fn in_range(m: Self::V) -> bool;

    /// Writes the value. The wire form is never `null`, and reading it back
    /// gives the value when its dates are in range.
    fn encode(&self) -> (r: JsonValue)
        ensures
            r@ == Self::enc_spec(self.deep_view()),
            r@ !is Null,
            Self::in_range(self.deep_view()) ==> Self::dec_spec(r@) == Some(self.deep_view()),
    ;

    fn decode(j: &JsonValue) -> (r: Option<Self>)
        ensures
            r.deep_view() == Self::dec_spec(j@),
    ;
}

/// A type without dates, whose wire form reads back for every value.
pub trait RoundTrip: Codec {
    proof fn lemma_round_trip(m: Self::V)
        ensures
            Self::dec_spec(Self::enc_spec(m)) == Some(m),
            Self::enc_spec(m) !is Null,
    ;
}

/// The wire form of a sequence: an array of the wire forms of its elements.
pub open spec fn enc_list<T: Codec>(s: Seq<T::V>) -> Json {
    array_of(s, |m: T::V| T::enc_spec(m))
}

/// Reading a sequence: an array whose every element reads.
pub open spec fn dec_list<T: Codec>(j: Json) -> Option<Seq<T::V>> {
    read_array(j, |v: Json| T::dec_spec(v))
}

/// Reading back the wire form of a sequence gives the sequence.
pub proof fn lemma_list_round_trip<T: RoundTrip>(s: Seq<T::V>)
    ensures
        dec_list::<T>(enc_list::<T>(s)) == Some(s),
{
    assert forall|i: int| 0 <= i < s.len() implies T::dec_spec(#[trigger] T::enc_spec(s[i]))
        == Some(s[i]) by {
        T::lemma_round_trip(s[i]);
    }
    lemma_array_round_trip(s, |m: T::V| T::enc_spec(m), |v: Json| T::dec_spec(v));
}

/// Writes each element in turn.
pub fn encode_list<T: Codec>(v: &Vec<T>) -> (r: JsonValue)
    ensures
        r@ == enc_list::<T>(v.deep_view()),
        all_in_range::<T>(v.deep_view()) ==> dec_list::<T>(r@) == Some(v.deep_view()),
{
    let mut out: Vec<JsonValue> = Vec::new();
    let mut i: usize = 0;
    while i < v.len()
        invariant
            i <= v.len(),
            out@.len() == i,
            forall|k: int| 0 <= k < i ==> (#[trigger] out@[k])@ == T::enc_spec(v@[k].deep_view()),
            forall|k: int|
                0 <= k < i ==> T::in_range(v@[k].deep_view()) ==> T::dec_spec((#[trigger] out@[k])@)
                    == Some(v@[k].deep_view()),
        decreases v.len() - i,
    {
        let e = v[i].encode();
        out.push(e);
        i += 1;
    }
    let r = JsonValue::Array(out);
    let ghost model = v.deep_view();
    assert(r@->Array_0 =~= enc_list::<T>(model)->Array_0);
    proof {
        if all_in_range::<T>(model) {
            let f = |x: Json| T::dec_spec(x);
            let items = r@->Array_0;
            assert forall|k: int| 0 <= k < items.len() implies (#[trigger] f(items[k])) is Some by {
                assert(T::in_range(model[k]));
                assert(items[k] == out@[k]@);
            }
            assert(Seq::new(items.len(), |k: int| f(items[k])->0) =~= model) by {
                assert forall|k: int| 0 <= k < items.len() implies f(items[k])->0 == model[k] by {
                    assert(T::in_range(model[k]));
                    assert(items[k] == out@[k]@);
                }
            }
        }
    }
    r
}

/// Reads each element in turn; fails at the first that does not read.
pub fn decode_list<T: Codec>(j: &JsonValue) -> (r: Option<Vec<T>>)
    ensures
        r.deep_view() == dec_list::<T>(j@),
{
    match j {
        JsonValue::Array(items) => {
            let ghost items_model = j@->Array_0;
            let mut out: Vec<T> = Vec::new();
            let mut i: usize = 0;
            while i < items.len()
                invariant
                    i <= items.len(),
                    j@ == Json::Array(items_model),
                    items_model.len() == items@.len(),
                    forall|k: int| 0 <= k < items@.len() ==> items_model[k] == (#[trigger] items@[k])@,
                    out@.len() == i,
                    forall|k: int|
                        0 <= k < i ==> T::dec_spec(items_model[k]) == Some(
                            (#[trigger] out@[k]).deep_view(),
                        ),
                decreases items.len() - i,
            {
                match T::decode(&items[i]) {
                    Some(x) => {
                        out.push(x);
                    },
                    None => {
                        let ghost f = |v: Json| T::dec_spec(v);
                        assert(f(items_model[i as int]) is None);
                        return None;
                    },
                }
                i += 1;
            }
            let ghost f = |v: Json| T::dec_spec(v);
            assert forall|k: int| 0 <= k < items_model.len() implies (#[trigger] f(
                items_model[k],
            )) is Some by {
                assert(T::dec_spec(items_model[k]) == Some(out@[k].deep_view()));
            }
            assert(out.deep_view() =~= dec_list::<T>(j@)->0);
            Some(out)
        },
        _ => None,
    }
}

/// An object told apart by its `type` member, with its content under a
/// member named like the type.
pub open spec fn tagged(tag: Seq<char>, payload: Json) -> Json {
    Json::Object(seq![("type"@, Json::Str(tag)), (tag, payload)])
}

/// The two members of a tagged object are found under their names.
pub proof fn lemma_tagged(tag: Seq<char>, payload: Json)
    requires
        tag != "type"@,
    ensures
        tagged(tag, payload).field("type"@) == Some(Json::Str(tag)),
        tagged(tag, payload).field(tag) == Some(payload),
{
    let ms = tagged(tag, payload)->Object_0;
    lemma_member_at(ms, 0);
    lemma_member_at(ms, 1);
}

/// Writes an object told apart by its `type` member.
pub fn tagged_object(tag: &str, payload: JsonValue) -> (r: JsonValue)
    ensures
        r@ == tagged(tag@, payload@),
{
    let ghost p = payload@;
    let mut ms = new_members();
    add_member(&mut ms, "type", string_value(tag));
    add_member(&mut ms, tag, payload);
    let r = object(ms);
    assert(r@->Object_0 =~= tagged(tag@, p)->Object_0);
    r
}

/// A member that must be present and read.
pub open spec fn codec_field<T: Codec>(j: Json, key: Seq<char>) -> Option<T::V> {
    match j.field(key) {
        Some(v) => T::dec_spec(v),
        None => None,
    }
}

/// An optional member: absent or `null` reads as `None`.
pub open spec fn opt_codec_field<T: Codec>(j: Json, key: Seq<char>) -> Option<Option<T::V>> {
    match j.field(key) {
        None => Some(None),
        Some(Json::Null) => Some(None),
        Some(v) => match T::dec_spec(v) {
            Some(m) => Some(Some(m)),
            None => None,
        },
    }
}

/// An array member that must be present.
pub open spec fn list_field<T: Codec>(j: Json, key: Seq<char>) -> Option<Seq<T::V>> {
    match j.field(key) {
        Some(v) => dec_list::<T>(v),
        None => None,
    }
}

/// An optional array member: absent or `null` reads as `None`.
pub open spec fn opt_list_field<T: Codec>(j: Json, key: Seq<char>) -> Option<Option<Seq<T::V>>> {
    match j.field(key) {
        None => Some(None),
        Some(Json::Null) => Some(None),
        Some(v) => match dec_list::<T>(v) {
            Some(m) => Some(Some(m)),
            None => None,
        },
    }
}

/// The wire form of an optional value: `null` when absent.
pub open spec fn enc_opt<T: Codec>(o: Option<T::V>) -> Json {
    match o {
        Some(m) => T::enc_spec(m),
        None => Json::Null,
    }
}

/// The wire form of an optional sequence: `null` when absent.
pub open spec fn enc_opt_list<T: Codec>(o: Option<Seq<T::V>>) -> Json {
    match o {
        Some(s) => enc_list::<T>(s),
        None => Json::Null,
    }
}

pub open spec fn all_in_range<T: Codec>(s: Seq<T::V>) -> bool {
    forall|i: int| 0 <= i < s.len() ==> T::in_range(#[trigger] s[i])
}

pub open spec fn opt_in_range<T: Codec>(o: Option<T::V>) -> bool {
    o matches Some(m) ==> T::in_range(m)
}

pub open spec fn opt_all_in_range<T: Codec>(o: Option<Seq<T::V>>) -> bool {
    o matches Some(s) ==> all_in_range::<T>(s)
}

/// Reading back the member that holds the wire form of a value.
pub proof fn lemma_field_round_trip<T: RoundTrip>(j: Json, key: Seq<char>, m: T::V)
    requires
        j.field(key) == Some(T::enc_spec(m)),
    ensures
        codec_field::<T>(j, key) == Some(m),
{
    T::lemma_round_trip(m);
}

/// Reading back the member that holds the wire form of an optional value.
pub proof fn lemma_opt_field_round_trip<T: RoundTrip>(j: Json, key: Seq<char>, o: Option<T::V>)
    requires
        j.field(key) == Some(enc_opt::<T>(o)),
    ensures
        opt_codec_field::<T>(j, key) == Some(o),
{
    if o is Some {
        T::lemma_round_trip(o->0);
    }
}

/// Reading back the member that holds the wire form of a sequence.
pub proof fn lemma_list_field_round_trip<T: RoundTrip>(j: Json, key: Seq<char>, s: Seq<T::V>)
    requires
        j.field(key) == Some(enc_list::<T>(s)),
    ensures
        list_field::<T>(j, key) == Some(s),
{
    lemma_list_round_trip::<T>(s);
}

/// Reading back the member that holds the wire form of an optional sequence.
pub proof fn lemma_opt_list_field_round_trip<T: RoundTrip>(
    j: Json,
    key: Seq<char>,
    o: Option<Seq<T::V>>,
)
    requires
        j.field(key) == Some(enc_opt_list::<T>(o)),
    ensures
        opt_list_field::<T>(j, key) == Some(o),
{
    if o is Some {
        lemma_list_round_trip::<T>(o->0);
    }
}

/// Reads the member `key` as a `T`.
pub fn decode_field<T: Codec>(j: &JsonValue, key: &str) -> (r: Option<T>)
    ensures
        r.deep_view() == codec_field::<T>(j@, key@),
{
    match j.field(key) {
        Some(v) => T::decode(v),
        None => None,
    }
}

/// Reads the optional member `key` as a `T`.
pub fn decode_opt_field<T: Codec>(j: &JsonValue, key: &str) -> (r: Option<Option<T>>)
    ensures
        r.deep_view() == opt_codec_field::<T>(j@, key@),
{
    match j.field(key) {
        None => Some(None),
        Some(JsonValue::Null) => Some(None),
        Some(v) => match T::decode(v) {
            Some(x) => Some(Some(x)),
            None => None,
        },
    }
}

/// Reads the array member `key`.
pub fn decode_list_field<T: Codec>(j: &JsonValue, key: &str) -> (r: Option<Vec<T>>)
    ensures
        r.deep_view() == list_field::<T>(j@, key@),
{
    match j.field(key) {
        Some(v) => decode_list::<T>(v),
        None => None,
    }
}

/// Reads the optional array member `key`.
pub fn decode_opt_list_field<T: Codec>(j: &JsonValue, key: &str) -> (r: Option<Option<Vec<T>>>)
    ensures
        r.deep_view() == opt_list_field::<T>(j@, key@),
{
    match j.field(key) {
        None => Some(None),
        Some(JsonValue::Null) => Some(None),
        Some(v) => match decode_list::<T>(v) {
            Some(x) => Some(Some(x)),
            None => None,
        },
    }
}

/// Writes an optional value, `null` when absent.
pub fn encode_opt<T: Codec>(o: &Option<T>) -> (r: JsonValue)
    ensures
        r@ == enc_opt::<T>(o.deep_view()),
        o is Some ==> r@ !is Null,
        opt_in_range::<T>(o.deep_view()) && o is Some ==> T::dec_spec(r@) == o.deep_view(),
{
    match o {
        Some(x) => x.encode(),
        None => JsonValue::Null,
    }
}

/// Writes an optional sequence, `null` when absent.
pub fn encode_opt_list<T: Codec>(o: &Option<Vec<T>>) -> (r: JsonValue)
    ensures
        r@ == enc_opt_list::<T>(o.deep_view()),
        opt_all_in_range::<T>(o.deep_view()) && o is Some ==> dec_list::<T>(r@) == o.deep_view(),
{
    match o {
        Some(v) => encode_list(v),
        None => JsonValue::Null,
    }
}

} // verus!
