use vstd::prelude::*;

use crate::json::{read_str, Codec, Json, JsonValue, RoundTrip};

verus! {

/// Identifies a property (a column) of a database.
#[derive(Clone, Debug, PartialEq, Eq, Hash)]
pub struct PropertyId(pub String);

impl DeepView for PropertyId {
    type V = Seq<char>;

    open spec fn deep_view(&self) -> Seq<char> {
        self.0@
    }
}

impl PropertyId {
    pub fn as_str(&self) -> (r: &str)
        ensures
            r@ == self.deep_view(),
    {
        self.0.as_str()
    }
}

/// The wire form of an identifier is a JSON string.
impl Codec for PropertyId {
    open spec fn enc_spec(m: Seq<char>) -> Json {
        Json::Str(m)
    }

    open spec fn dec_spec(j: Json) -> Option<Seq<char>> {
        read_str(j)
    }

    open spec fn in_range(m: Seq<char>) -> bool {
        true
    }

    fn encode(&self) -> (r: JsonValue) {
        proof {
            <PropertyId as RoundTrip>::lemma_round_trip(self.deep_view());
        }
        let s = self.0.clone();
        assert(Self::enc_spec(self.deep_view()) == Json::Str(s@));
        JsonValue::String(s)
    }

    fn decode(j: &JsonValue) -> (r: Option<PropertyId>) {
        match j {
            JsonValue::String(s) => Some(PropertyId(s.clone())),
            _ => None,
        }
    }
}

impl RoundTrip for PropertyId {
    proof fn lemma_round_trip(m: Seq<char>) {
    }
}

/// Identifies a database.
#[derive(Clone, Debug, PartialEq, Eq, Hash)]
pub struct DatabaseId(pub String);

impl DeepView for DatabaseId {
    type V = Seq<char>;

    open spec fn deep_view(&self) -> Seq<char> {
        self.0@
    }
}

impl DatabaseId {
    pub fn as_str(&self) -> (r: &str)
        ensures
            r@ == self.deep_view(),
    {
        self.0.as_str()
    }
}

/// The wire form of an identifier is a JSON string.
impl Codec for DatabaseId {
    open spec fn enc_spec(m: Seq<char>) -> Json {
        Json::Str(m)
    }

    open spec fn dec_spec(j: Json) -> Option<Seq<char>> {
        read_str(j)
    }

    open spec fn in_range(m: Seq<char>) -> bool {
        true
    }

    fn encode(&self) -> (r: JsonValue) {
        proof {
            <DatabaseId as RoundTrip>::lemma_round_trip(self.deep_view());
        }
        let s = self.0.clone();
        assert(Self::enc_spec(self.deep_view()) == Json::Str(s@));
        JsonValue::String(s)
    }

    fn decode(j: &JsonValue) -> (r: Option<DatabaseId>) {
        match j {
            JsonValue::String(s) => Some(DatabaseId(s.clone())),
            _ => None,
        }
    }
}

impl RoundTrip for DatabaseId {
    proof fn lemma_round_trip(m: Seq<char>) {
    }
}

/// Identifies a page.
#[derive(Clone, Debug, PartialEq, Eq, Hash)]
pub struct PageId(pub String);

impl DeepView for PageId {
    type V = Seq<char>;

    open spec fn deep_view(&self) -> Seq<char> {
        self.0@
    }
}

impl PageId {
    pub fn as_str(&self) -> (r: &str)
        ensures
            r@ == self.deep_view(),
    {
        self.0.as_str()
    }
}

/// The wire form of an identifier is a JSON string.
impl Codec for PageId {
    open spec fn enc_spec(m: Seq<char>) -> Json {
        Json::Str(m)
    }

    open spec fn dec_spec(j: Json) -> Option<Seq<char>> {
        read_str(j)
    }

    open spec fn in_range(m: Seq<char>) -> bool {
        true
    }

    fn encode(&self) -> (r: JsonValue) {
        proof {
            <PageId as RoundTrip>::lemma_round_trip(self.deep_view());
        }
        let s = self.0.clone();
        assert(Self::enc_spec(self.deep_view()) == Json::Str(s@));
        JsonValue::String(s)
    }

    fn decode(j: &JsonValue) -> (r: Option<PageId>) {
        match j {
            JsonValue::String(s) => Some(PageId(s.clone())),
            _ => None,
        }
    }
}

impl RoundTrip for PageId {
    proof fn lemma_round_trip(m: Seq<char>) {
    }
}

/// Identifies a user or a bot.
#[derive(Clone, Debug, PartialEq, Eq, Hash)]
pub struct UserId(pub String);

impl DeepView for UserId {
    type V = Seq<char>;

    open spec fn deep_view(&self) -> Seq<char> {
        self.0@
    }
}

impl UserId {
    pub fn as_str(&self) -> (r: &str)
        ensures
            r@ == self.deep_view(),
    {
        self.0.as_str()
    }
}

/// The wire form of an identifier is a JSON string.
impl Codec for UserId {
    open spec fn enc_spec(m: Seq<char>) -> Json {
        Json::Str(m)
    }

    open spec fn dec_spec(j: Json) -> Option<Seq<char>> {
        read_str(j)
    }

    open spec fn in_range(m: Seq<char>) -> bool {
        true
    }

    fn encode(&self) -> (r: JsonValue) {
        proof {
            <UserId as RoundTrip>::lemma_round_trip(self.deep_view());
        }
        let s = self.0.clone();
        assert(Self::enc_spec(self.deep_view()) == Json::Str(s@));
        JsonValue::String(s)
    }

    fn decode(j: &JsonValue) -> (r: Option<UserId>) {
        match j {
            JsonValue::String(s) => Some(UserId(s.clone())),
            _ => None,
        }
    }
}

impl RoundTrip for UserId {
    proof fn lemma_round_trip(m: Seq<char>) {
    }
}

} // verus!
