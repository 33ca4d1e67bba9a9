use chrono::{Datelike, Timelike};
use vstd::prelude::*;

use crate::json::{read_str, Codec, Json, JsonValue};

verus! {

/// The earliest year that a calendar date may have.
pub const MIN_YEAR: i32 = -262143;

/// The latest year that a calendar date may have.
pub const MAX_YEAR: i32 = 262142;

pub open spec fn is_leap_year(year: int) -> bool {
    year % 4 == 0 && (year % 100 != 0 || year % 400 == 0)
}

pub open spec fn days_in_month(year: int, month: int) -> int {
    if month == 2 {
        if is_leap_year(year) {
            29
        } else {
            28
        }
    } else if month == 4 || month == 6 || month == 9 || month == 11 {
        30
    } else {
        31
    }
}

/// Whether year, month and day name a day of the proleptic Gregorian calendar
/// within the supported range of years.
pub open spec fn valid_ymd(year: int, month: int, day: int) -> bool {
    &&& MIN_YEAR <= year <= MAX_YEAR
    &&& 1 <= month <= 12
    &&& 1 <= day <= days_in_month(year, month)
}

/// Whether a count of seconds since midnight and a count of nanoseconds name a
/// time of day; nanoseconds past one second stand for a leap second.
pub open spec fn valid_time(seconds: int, nanos: int) -> bool {
    &&& 0 <= seconds < 86400
    &&& 0 <= nanos < 2_000_000_000
    &&& nanos >= 1_000_000_000 ==> seconds % 60 == 59
}

/// A day of the calendar, without a time.
#[derive(Clone, Copy, Debug, PartialEq, Eq)]
pub struct CalendarDate {
    year: i32,
    month: u32,
    day: u32,
}

impl DeepView for CalendarDate {
    type V = (int, int, int);

    closed spec fn deep_view(&self) -> (int, int, int) {
        (self.year as int, self.month as int, self.day as int)
    }
}

impl CalendarDate {
    #[verifier::type_invariant]
    spec fn valid(self) -> bool {
        valid_ymd(self.year as int, self.month as int, self.day as int)
    }

    /// The date with the given year, month (from 1) and day (from 1), if it
    /// exists.
    pub fn new(year: i32, month: u32, day: u32) -> (r: Option<CalendarDate>)
        ensures
            r is Some <==> valid_ymd(year as int, month as int, day as int),
            r matches Some(d) ==> d.deep_view() == (year as int, month as int, day as int),
    {
        if year < MIN_YEAR || year > MAX_YEAR || month < 1 || month > 12 || day < 1 {
            return None;
        }
        // Shifting by a multiple of 400 years keeps the leap years and makes
        // the year non-negative.
        let shifted: u32 = (year as i64 + 400_000) as u32;
        let leap = shifted % 4 == 0 && (shifted % 100 != 0 || shifted % 400 == 0);
        assert(leap == is_leap_year(year as int)) by {
            assert(shifted as int == year as int + 400_000);
        }
        let last: u32 = if month == 2 {
            if leap {
                29
            } else {
                28
            }
        } else if month == 4 || month == 6 || month == 9 || month == 11 {
            30
        } else {
            31
        };
        if day > last {
            None
        } else {
            Some(CalendarDate { year, month, day })
        }
    }

    pub fn year(&self) -> (r: i32)
        ensures
            r == self.deep_view().0,
    {
        self.year
    }

    pub fn month(&self) -> (r: u32)
        ensures
            r == self.deep_view().1,
    {
        self.month
    }

    pub fn day(&self) -> (r: u32)
        ensures
            r == self.deep_view().2,
    {
        self.day
    }
}

/// An instant in UTC: a calendar date and a time of day.
#[derive(Clone, Copy, Debug, PartialEq, Eq)]
pub struct Timestamp {
    date: CalendarDate,
    seconds: u32,
    nanos: u32,
}

impl DeepView for Timestamp {
    type V = (int, int, int, int, int);

    closed spec fn deep_view(&self) -> (int, int, int, int, int) {
        (
            self.date.year as int,
            self.date.month as int,
            self.date.day as int,
            self.seconds as int,
            self.nanos as int,
        )
    }
}

impl Timestamp {
    #[verifier::type_invariant]
    spec fn valid(self) -> bool {
        valid_time(self.seconds as int, self.nanos as int)
    }

    /// The instant on `date` at `seconds` after midnight plus `nanos`, if that
    /// names a time of day.
    pub fn new(date: CalendarDate, seconds: u32, nanos: u32) -> (r: Option<Timestamp>)
        ensures
            r is Some <==> valid_time(seconds as int, nanos as int),
            r matches Some(t) ==> t.deep_view() == (
                date.deep_view().0,
                date.deep_view().1,
                date.deep_view().2,
                seconds as int,
                nanos as int,
            ),
    {
        if seconds >= 86400 || nanos >= 2_000_000_000 || (nanos >= 1_000_000_000 && seconds % 60
            != 59) {
            None
        } else {
            Some(Timestamp { date, seconds, nanos })
        }
    }

    pub fn date(&self) -> (r: CalendarDate)
        ensures
            r.deep_view() == (self.deep_view().0, self.deep_view().1, self.deep_view().2),
    {
        self.date
    }

    pub fn seconds_from_midnight(&self) -> (r: u32)
        ensures
            r == self.deep_view().3,
    {
        self.seconds
    }

    pub fn nanosecond(&self) -> (r: u32)
        ensures
            r == self.deep_view().4,
    {
        self.nanos
    }
}

/// The text that chrono gives a calendar date.
pub uninterp spec fn date_text(year: int, month: int, day: int) -> Seq<char>;

/// The calendar date that chrono reads from a text, as year, month and day.
pub uninterp spec fn parsed_date(s: Seq<char>) -> Option<(int, int, int)>;

/// The RFC 3339 text that chrono gives an instant in UTC.
pub uninterp spec fn timestamp_text(parts: (int, int, int, int, int)) -> Seq<char>;

/// The instant in UTC that chrono reads from an RFC 3339 text, as year, month,
/// day, seconds after midnight and nanoseconds.
pub uninterp spec fn parsed_timestamp(s: Seq<char>) -> Option<(int, int, int, int, int)>;

/// Relies on chrono's `NaiveDate::from_ymd_opt`, which accepts every valid
/// date, and on its `Display`, which writes the date as `%Y-%m-%d`, the
/// format that its `FromStr` reads; a four-digit year is written as it is.
#[verifier::external_body]
fn format_date(year: i32, month: u32, day: u32) -> (r: String)
    requires
        valid_ymd(year as int, month as int, day as int),
    ensures
        r@ == date_text(year as int, month as int, day as int),
        0 <= year <= 9999 ==> parsed_date(r@) == Some((year as int, month as int, day as int)),
{
    chrono::NaiveDate::from_ymd_opt(year, month, day).unwrap().to_string()
}

/// Relies on chrono's `FromStr` for `NaiveDate`, which reads `%Y-%m-%d` and
/// yields only valid dates.
#[verifier::external_body]
fn parse_date(s: &str) -> (r: Option<(i32, u32, u32)>)
    ensures
        r is None <==> parsed_date(s@) is None,
        r matches Some(t) ==> parsed_date(s@) == Some((t.0 as int, t.1 as int, t.2 as int))
            && valid_ymd(t.0 as int, t.1 as int, t.2 as int),
{
    match s.parse::<chrono::NaiveDate>() {
        Ok(d) => Some((d.year(), d.month(), d.day())),
        Err(_) => None,
    }
}

/// Relies on chrono's `DateTime::<Utc>::to_rfc3339_opts` with automatic
/// sub-second digits and a `Z` suffix, the form its serde support writes.
/// With a four-digit year that text is RFC 3339, which chrono's `FromStr`
/// for `DateTime<Utc>` reads back to the same instant; the time after the
/// date makes `NaiveDate`'s `FromStr` refuse it.
#[verifier::external_body]
fn format_timestamp(year: i32, month: u32, day: u32, seconds: u32, nanos: u32) -> (r: String)
    requires
        valid_ymd(year as int, month as int, day as int),
        valid_time(seconds as int, nanos as int),
    ensures
        r@ == timestamp_text((year as int, month as int, day as int, seconds as int, nanos as int)),
        0 <= year <= 9999 ==> parsed_timestamp(r@) == Some(
            (year as int, month as int, day as int, seconds as int, nanos as int),
        ) && parsed_date(r@) is None,
{
    let date = chrono::NaiveDate::from_ymd_opt(year, month, day).unwrap();
    let time = chrono::NaiveTime::from_num_seconds_from_midnight_opt(seconds, nanos).unwrap();
    date.and_time(time).and_utc().to_rfc3339_opts(chrono::SecondsFormat::AutoSi, true)
}

/// Relies on chrono's `FromStr` for `DateTime<Utc>`, which reads RFC 3339 and
/// converts to UTC; its date and time of day are valid.
#[verifier::external_body]
fn parse_timestamp(s: &str) -> (r: Option<(i32, u32, u32, u32, u32)>)
    ensures
        r is None <==> parsed_timestamp(s@) is None,
        r matches Some(t) ==> parsed_timestamp(s@) == Some(
            (t.0 as int, t.1 as int, t.2 as int, t.3 as int, t.4 as int),
        ) && valid_ymd(t.0 as int, t.1 as int, t.2 as int) && valid_time(t.3 as int, t.4 as int),
{
    match s.parse::<chrono::DateTime<chrono::Utc>>() {
        Ok(t) => {
            let n = t.naive_utc();
            Some((n.year(), n.month(), n.day(), n.num_seconds_from_midnight(), n.nanosecond()))
        },
        Err(_) => None,
    }
}

/// A date property holds either a whole day or an instant.
#[derive(Clone, Copy, Debug, PartialEq, Eq)]
pub enum DateOrDateTime {
    Date(CalendarDate),
    DateTime(Timestamp),
}

/// The model of a [`DateOrDateTime`]: a date as year, month and day, an
/// instant as those and seconds after midnight and nanoseconds.
pub enum DateOrDateTimeModel {
    Date((int, int, int)),
    DateTime((int, int, int, int, int)),
}

impl DeepView for DateOrDateTime {
    type V = DateOrDateTimeModel;

    open spec fn deep_view(&self) -> DateOrDateTimeModel {
        match self {
            DateOrDateTime::Date(d) => DateOrDateTimeModel::Date(d.deep_view()),
            DateOrDateTime::DateTime(t) => DateOrDateTimeModel::DateTime(t.deep_view()),
        }
    }
}

/// Dates whose years have four digits, the range in which the texts of
/// dates and instants are plain RFC 3339.
pub open spec fn in_wire_range(year: int, month: int, day: int) -> bool {
    valid_ymd(year, month, day) && 0 <= year <= 9999
}

/// Whether a date or instant is valid, with a four-digit year.
pub open spec fn date_or_time_in_range(m: DateOrDateTimeModel) -> bool {
    match m {
        DateOrDateTimeModel::Date(d) => in_wire_range(d.0, d.1, d.2),
        DateOrDateTimeModel::DateTime(t) => in_wire_range(t.0, t.1, t.2) && valid_time(t.3, t.4),
    }
}

/// The wire form of a date or instant: its text.
pub open spec fn enc_date_or_time(m: DateOrDateTimeModel) -> Json {
    match m {
        DateOrDateTimeModel::Date(d) => Json::Str(date_text(d.0, d.1, d.2)),
        DateOrDateTimeModel::DateTime(t) => Json::Str(timestamp_text(t)),
    }
}

/// Reading a date or instant: a text that reads as a date is a date, and
/// otherwise one that reads as an instant is an instant.
pub open spec fn dec_date_or_time(j: Json) -> Option<DateOrDateTimeModel> {
    match read_str(j) {
        Some(s) => match parsed_date(s) {
            Some(d) => Some(DateOrDateTimeModel::Date(d)),
            None => match parsed_timestamp(s) {
                Some(t) => Some(DateOrDateTimeModel::DateTime(t)),
                None => None,
            },
        },
        None => None,
    }
}

/// The wire form of a date or instant is its text.
impl Codec for DateOrDateTime {
    open spec fn enc_spec(m: DateOrDateTimeModel) -> Json {
        enc_date_or_time(m)
    }

    open spec fn dec_spec(j: Json) -> Option<DateOrDateTimeModel> {
        dec_date_or_time(j)
    }

    open spec fn in_range(m: DateOrDateTimeModel) -> bool {
        date_or_time_in_range(m)
    }

    fn encode(&self) -> (r: JsonValue) {
        match self {
            DateOrDateTime::Date(d) => {
                proof {
                    use_type_invariant(d);
                }
                JsonValue::String(format_date(d.year, d.month, d.day))
            },
            DateOrDateTime::DateTime(t) => {
                proof {
                    use_type_invariant(t);
                    use_type_invariant(&t.date);
                }
                JsonValue::String(
                    format_timestamp(t.date.year, t.date.month, t.date.day, t.seconds, t.nanos),
                )
            },
        }
    }

    fn decode(j: &JsonValue) -> (r: Option<DateOrDateTime>) {
        match j {
            JsonValue::String(s) => {
                match parse_date(s.as_str()) {
                    Some((year, month, day)) => {
                        Some(DateOrDateTime::Date(CalendarDate { year, month, day }))
                    },
                    None => match parse_timestamp(s.as_str()) {
                        Some((year, month, day, seconds, nanos)) => {
                            let date = CalendarDate { year, month, day };
                            Some(DateOrDateTime::DateTime(Timestamp { date, seconds, nanos }))
                        },
                        None => None,
                    },
                }
            },
            _ => None,
        }
    }
}

/// The wire form of an instant is its RFC 3339 text.
impl Codec for Timestamp {
    open spec fn enc_spec(m: (int, int, int, int, int)) -> Json {
        Json::Str(timestamp_text(m))
    }

    open spec fn dec_spec(j: Json) -> Option<(int, int, int, int, int)> {
        match read_str(j) {
            Some(s) => parsed_timestamp(s),
            None => None,
        }
    }

    open spec fn in_range(m: (int, int, int, int, int)) -> bool {
        in_wire_range(m.0, m.1, m.2) && valid_time(m.3, m.4)
    }

    fn encode(&self) -> (r: JsonValue) {
        proof {
            use_type_invariant(self);
            use_type_invariant(&self.date);
        }
        JsonValue::String(
            format_timestamp(self.date.year, self.date.month, self.date.day, self.seconds, self.nanos),
        )
    }

    fn decode(j: &JsonValue) -> (r: Option<Timestamp>) {
        match j {
            JsonValue::String(s) => match parse_timestamp(s.as_str()) {
                Some((year, month, day, seconds, nanos)) => {
                    let date = CalendarDate { year, month, day };
                    Some(Timestamp { date, seconds, nanos })
                },
                None => None,
            },
            _ => None,
        }
    }
}

} // verus!
