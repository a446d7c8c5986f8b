//! Canonical naive timestamps: a day number in the proleptic Gregorian
//! calendar, a second of the day and a nanosecond, ordered as the calendar
//! orders them.
//!
//! Texts are turned into timestamps, and timestamps into texts and calendar
//! dates, by `chrono`, and so are timestamps added to and taken from each
//! other. What each of these calls returns is stated over the fields of a
//! timestamp, and the rest of the crate is proved from that.

use chrono::{Datelike, Timelike};
use vstd::prelude::*;

verus! {

/// Day number of the first representable date, 1 January of the year -262143.
pub const MIN_DAY: i32 = -95_746_129;

/// Day number of the last representable date, 31 December of the year 262142.
pub const MAX_DAY: i32 = 95_745_399;

/// A naive point in time. `day` counts days with 1 January of the year 1 as
/// day 1, `sec` is the second of the day, and `nano` the nanosecond of that
/// second; a value of `nano` of a billion or more stands for a leap second.
#[derive(Clone, Copy, Debug, PartialEq, Eq, Structural)]
pub struct Timestamp {
    pub day: i32,
    pub sec: u32,
    pub nano: u32,
}

/// The mathematical value of a [`Timestamp`].
pub struct Moment {
    pub day: int,
    pub sec: int,
    pub nano: int,
}

impl Moment {
    /// The ranges that every timestamp keeps.
    pub open spec fn wf(self) -> bool {
        &&& MIN_DAY <= self.day <= MAX_DAY
        &&& 0 <= self.sec < 86_400
        &&& 0 <= self.nano < 2_000_000_000
        &&& self.nano >= 1_000_000_000 ==> self.sec % 60 == 59
    }

    /// A number that orders moments as the calendar does: by day, then
    /// second, then nanosecond.
    pub open spec fn key(self) -> int {
        (self.day * 86_400 + self.sec) * 2_000_000_000 + self.nano
    }

    /// Seconds from the start of day 0 to the start of this moment's second.
    pub open spec fn second_count(self) -> int {
        self.day * 86_400 + self.sec
    }

    /// Day of the week, 1 for Monday to 7 for Sunday.
    pub open spec fn weekday(self) -> int {
        (self.day - 1) % 7 + 1
    }

    /// Key of the time of day alone.
    pub open spec fn time_key(self) -> int {
        self.sec * 2_000_000_000 + self.nano
    }

    /// The moment a whole number of seconds away. A leap second is left
    /// behind by any move: forwards it counts as the second it extends,
    /// backwards as the second after it. Nothing is returned when the day
    /// leaves the representable range.
    pub open spec fn plus_seconds(self, secs: int) -> Option<Moment> {
        if secs == 0 {
            Some(self)
        } else {
            let leap = self.nano >= 1_000_000_000;
            let from = self.second_count() + if leap && secs < 0 {
                1int
            } else {
                0int
            };
            let total = from + secs;
            let day = total / 86_400;
            if MIN_DAY <= day <= MAX_DAY {
                Some(
                    Moment {
                        day,
                        sec: total % 86_400,
                        nano: if leap {
                            self.nano - 1_000_000_000
                        } else {
                            self.nano
                        },
                    },
                )
            } else {
                None
            }
        }
    }

    /// Nanoseconds from `earlier` to this moment. A leap second at the
    /// earlier of two different seconds of the day is counted in full.
    pub open spec fn nanos_since(self, earlier: Moment) -> int {
        let leap = if self.sec > earlier.sec && earlier.nano >= 1_000_000_000 {
            1int
        } else if self.sec < earlier.sec && self.nano >= 1_000_000_000 {
            -1int
        } else {
            0int
        };
        (self.second_count() - earlier.second_count() + leap) * 1_000_000_000 + (self.nano
            - earlier.nano)
    }

    /// Whole seconds from `earlier` to this moment, rounded towards zero.
    pub open spec fn seconds_since(self, earlier: Moment) -> int {
        let n = self.nanos_since(earlier);
        if n >= 0 {
            n / 1_000_000_000
        } else {
            -((-n) / 1_000_000_000)
        }
    }

    /// The same time of day on the given day.
    pub open spec fn on_day(self, day: int) -> Moment {
        Moment { day, sec: self.sec, nano: self.nano }
    }
}

/// The start of a minute of a day.
pub open spec fn moment_at(day: int, minute_of_day: int) -> Moment {
    Moment { day, sec: minute_of_day * 60, nano: 0 }
}

impl View for Timestamp {
    type V = Moment;

    open spec fn view(&self) -> Moment {
        Moment { day: self.day as int, sec: self.sec as int, nano: self.nano as int }
    }
}

/// The view of an optional timestamp.
pub open spec fn moment_of(t: Option<Timestamp>) -> Option<Moment> {
    match t {
        Some(t) => Some(t@),
        None => None,
    }
}

/// What `NaiveDateTime::parse_from_str` returns for a text and a pattern: the
/// day number, second of the day and nanosecond of the parsed value, or
/// nothing where it reports an error.
pub uninterp spec fn naive_datetime_parsed(text: Seq<char>, pattern: Seq<char>) -> Option<Moment>;

/// What `NaiveTime::parse_from_str` returns for a text and a pattern: the
/// second of the day and the nanosecond of the parsed value, or nothing where
/// it reports an error.
pub uninterp spec fn naive_time_parsed(text: Seq<char>, pattern: Seq<char>) -> Option<(int, int)>;

/// What formatting a `NaiveDateTime` with a pattern gives.
pub uninterp spec fn naive_datetime_formatted(moment: Moment, pattern: Seq<char>) -> Seq<char>;

/// Year, month and day of the month of a day number, as `NaiveDate` reports
/// them.
pub uninterp spec fn civil_from_day(day: int) -> (int, int, int);

/// The day number of a calendar date, or nothing where `NaiveDate::from_ymd_opt`
/// refuses the date.
pub uninterp spec fn day_from_civil(year: int, month: int, day: int) -> Option<int>;

/// Value of a decimal digit character.
pub open spec fn digit_value(c: char) -> int {
    c as u32 - '0' as u32
}

/// Whether a character is a decimal digit.
pub open spec fn is_digit(c: char) -> bool {
    '0' <= c <= '9'
}

/// The text of a time of day in its canonical form: two digits, a colon,
/// two digits.
pub open spec fn clock_text(minute_of_day: int) -> Seq<char> {
    let h = minute_of_day / 60;
    let m = minute_of_day % 60;
    seq![digit_char(h / 10), digit_char(h % 10), ':', digit_char(m / 10), digit_char(m % 10)]
}

/// The character of a decimal digit.
pub open spec fn digit_char(d: int) -> char {
    if d == 0 {
        '0'
    } else if d == 1 {
        '1'
    } else if d == 2 {
        '2'
    } else if d == 3 {
        '3'
    } else if d == 4 {
        '4'
    } else if d == 5 {
        '5'
    } else if d == 6 {
        '6'
    } else if d == 7 {
        '7'
    } else if d == 8 {
        '8'
    } else {
        '9'
    }
}

/// The character of a decimal digit.
pub fn digit_of(d: u32) -> (c: char)
    requires
        d < 10,
    ensures
        c == digit_char(d as int),
{
    if d == 0 {
        '0'
    } else if d == 1 {
        '1'
    } else if d == 2 {
        '2'
    } else if d == 3 {
        '3'
    } else if d == 4 {
        '4'
    } else if d == 5 {
        '5'
    } else if d == 6 {
        '6'
    } else if d == 7 {
        '7'
    } else if d == 8 {
        '8'
    } else {
        '9'
    }
}

/// Whether a text is the canonical form of some time of day.
pub open spec fn is_clock_text(s: Seq<char>) -> bool {
    &&& s.len() == 5
    &&& is_digit(s[0]) && is_digit(s[1]) && s[2] == ':' && is_digit(s[3]) && is_digit(s[4])
    &&& digit_value(s[0]) * 10 + digit_value(s[1]) < 24
    &&& digit_value(s[3]) * 10 + digit_value(s[4]) < 60
}

/// The minute of the day that a canonical text names.
pub open spec fn clock_text_minutes(s: Seq<char>) -> int {
    (digit_value(s[0]) * 10 + digit_value(s[1])) * 60 + digit_value(s[3]) * 10 + digit_value(s[4])
}

/// The timestamp that a text names under a pattern: what the parser makes of
/// it, which is always within the ranges of a timestamp.
pub open spec fn datetime_parsed(text: Seq<char>, pattern: Seq<char>) -> Option<Moment> {
    match naive_datetime_parsed(text, pattern) {
        Some(m) => if m.wf() {
            Some(m)
        } else {
            None
        },
        None => None,
    }
}

/// `NaiveDateTime::parse_from_str`. The parsed value comes back as day
/// number, second of the day and nanosecond, all within the ranges of a
/// `NaiveDateTime`.
#[verifier::external_body]
pub(crate) fn parse_naive_datetime(text: &str, pattern: &str) -> (r: Option<Timestamp>)
    ensures
        moment_of(r) == naive_datetime_parsed(text@, pattern@),
        moment_of(r) == datetime_parsed(text@, pattern@),
{
    let parsed = chrono::NaiveDateTime::parse_from_str(text, pattern).ok()?;
    Some(
        Timestamp {
            day: parsed.date().num_days_from_ce(),
            sec: parsed.time().num_seconds_from_midnight(),
            nano: parsed.time().nanosecond(),
        },
    )
}

/// The view of an optional time of day.
pub open spec fn time_of(t: Option<(u32, u32)>) -> Option<(int, int)> {
    match t {
        Some(t) => Some((t.0 as int, t.1 as int)),
        None => None,
    }
}

/// The time of day that a text names under a pattern: the start of the
/// minute where the text is canonical and the pattern is `%H:%M`, and
/// otherwise what the parser makes of it, which is always a second and a
/// nanosecond within their ranges.
pub open spec fn time_parsed(text: Seq<char>, pattern: Seq<char>) -> Option<(int, int)> {
    if pattern == "%H:%M"@ && is_clock_text(text) {
        Some((clock_text_minutes(text) * 60, 0))
    } else {
        match naive_time_parsed(text, pattern) {
            Some(t) => if 0 <= t.0 < 86_400 && 0 <= t.1 < 2_000_000_000 {
                Some(t)
            } else {
                None
            },
            None => None,
        }
    }
}

/// `NaiveTime::parse_from_str`. The parsed value comes back as second of the
/// day and nanosecond. With the pattern `%H:%M`, a text of two digits, a
/// colon and two digits that names an hour below 24 and a minute below 60
/// parses to the start of that minute.
#[verifier::external_body]
pub(crate) fn parse_naive_time(text: &str, pattern: &str) -> (r: Option<(u32, u32)>)
    ensures
        time_of(r) == naive_time_parsed(text@, pattern@),
        time_of(r) == time_parsed(text@, pattern@),
        r matches Some(t) ==> t.0 < 86_400 && t.1 < 2_000_000_000,
{
    let parsed = chrono::NaiveTime::parse_from_str(text, pattern).ok()?;
    Some((parsed.num_seconds_from_midnight(), parsed.nanosecond()))
}

/// A number below a hundred in two digits.
pub open spec fn two_digits(n: int) -> Seq<char> {
    seq![digit_char(n / 10), digit_char(n % 10)]
}

/// A number below ten thousand in four digits.
pub open spec fn four_digits(n: int) -> Seq<char> {
    seq![
        digit_char(n / 1000),
        digit_char(n / 100 % 10),
        digit_char(n / 10 % 10),
        digit_char(n % 10),
    ]
}

/// A moment written to the second: year, month and day with hyphens
/// between them, the letter T, and hour, minute and second with colons
/// between them. A leap second is written as second 60.
pub open spec fn timestamp_text(m: Moment) -> Seq<char> {
    let date = civil_from_day(m.day);
    four_digits(date.0) + seq!['-'] + two_digits(date.1) + seq!['-'] + two_digits(date.2) + seq![
        'T',
    ] + two_digits(m.sec / 3600) + seq![':'] + two_digits(m.sec / 60 % 60) + seq![':']
        + two_digits(m.sec % 60 + m.nano / 1_000_000_000)
}

/// What formatting a moment with a pattern gives: the moment written to
/// the second where the pattern asks for that and the year has four
/// digits, and otherwise what the formatter makes of it.
pub open spec fn datetime_formatted(m: Moment, pattern: Seq<char>) -> Seq<char> {
    if pattern == "%Y-%m-%dT%H:%M:%S"@ && 0 <= civil_from_day(m.day).0 <= 9999 {
        timestamp_text(m)
    } else {
        naive_datetime_formatted(m, pattern)
    }
}

/// `NaiveDateTime::format` with the pattern `%Y-%m-%dT%H:%M:%S`, written
/// into a `String`: for a year of four digits that is the year, the month
/// and the day of the month, the hour, the minute and the second, each
/// padded with zeros to its width, with the pattern's hyphens, letter and
/// colons between them.
#[verifier::external_body]
pub(crate) fn format_naive_datetime(t: &Timestamp, pattern: &str) -> (r: String)
    requires
        t@.wf(),
        pattern@ == "%Y-%m-%dT%H:%M:%S"@,
    ensures
        r@ == naive_datetime_formatted(t@, pattern@),
        r@ == datetime_formatted(t@, pattern@),
{
    let date = chrono::NaiveDate::from_num_days_from_ce_opt(t.day).unwrap();
    let time = chrono::NaiveTime::from_num_seconds_from_midnight_opt(t.sec, t.nano).unwrap();
    date.and_time(time).format(pattern).to_string()
}

/// `NaiveDate::from_num_days_from_ce_opt` with the date's `year`, `month` and
/// `day`: the year is within the years of a `NaiveDate`, the month is 1 to 12
/// and the day of the month 1 to 31.
#[verifier::external_body]
pub(crate) fn civil_of_day(day: i32) -> (r: (i32, u32, u32))
    requires
        MIN_DAY <= day <= MAX_DAY,
    ensures
        (r.0 as int, r.1 as int, r.2 as int) == civil_from_day(day as int),
        -262_143 <= r.0 <= 262_142,
        1 <= r.1 <= 12,
        1 <= r.2 <= 31,
{
    let date = chrono::NaiveDate::from_num_days_from_ce_opt(day).unwrap();
    (date.year(), date.month(), date.day())
}

/// `NaiveDate::from_ymd_opt` with the date's `num_days_from_ce`: the day
/// number of a calendar date that exists and is representable.
#[verifier::external_body]
pub(crate) fn day_of_civil(year: i32, month: u32, day: u32) -> (r: Option<i32>)
    ensures
        match r {
            Some(d) => day_from_civil(year as int, month as int, day as int) == Some(d as int)
                && MIN_DAY <= d <= MAX_DAY,
            None => day_from_civil(year as int, month as int, day as int) is None,
        },
{
    chrono::NaiveDate::from_ymd_opt(year, month, day).map(|date| date.num_days_from_ce())
}

/// `TimeZone::from_local_datetime` of `Local`, then `earliest` and
/// `naive_utc`: the earliest instant that the machine's time zone gives a
/// naive local time, as a naive time in UTC, or nothing where the local time
/// does not exist. The result depends on the machine, so only its ranges are
/// known. Leap seconds and the first and the last representable day are
/// left out, since an offset could carry them out of range.
#[verifier::external_body]
pub(crate) fn local_to_utc(local: &Timestamp) -> (r: Option<Timestamp>)
    requires
        local@.wf(),
        local.nano < 1_000_000_000,
        MIN_DAY < local.day < MAX_DAY,
    ensures
        r matches Some(t) ==> t@.wf() && t.nano < 1_000_000_000,
{
    let date = chrono::NaiveDate::from_num_days_from_ce_opt(local.day).unwrap();
    let time = chrono::NaiveTime::from_num_seconds_from_midnight_opt(local.sec, local.nano).unwrap();
    let utc = chrono::TimeZone::from_local_datetime(&chrono::Local, &date.and_time(time))
        .earliest()?
        .naive_utc();
    Some(
        Timestamp {
            day: utc.date().num_days_from_ce(),
            sec: utc.time().num_seconds_from_midnight(),
            nano: utc.time().nanosecond(),
        },
    )
}

/// The timestamp that a text names in one of the three accepted forms:
/// with a fraction of a second, with seconds, or with minutes only. The
/// forms are tried in that order.
pub open spec fn timestamp_parsed(text: Seq<char>) -> Option<Moment> {
    if datetime_parsed(text, "%Y-%m-%dT%H:%M:%S%.f"@) is Some {
        datetime_parsed(text, "%Y-%m-%dT%H:%M:%S%.f"@)
    } else if datetime_parsed(text, "%Y-%m-%dT%H:%M:%S"@) is Some {
        datetime_parsed(text, "%Y-%m-%dT%H:%M:%S"@)
    } else {
        datetime_parsed(text, "%Y-%m-%dT%H:%M"@)
    }
}

/// Reads a timestamp in any of the three accepted forms.
pub fn parse_datetime_any(value: &str) -> (r: Option<Timestamp>)
    ensures
        moment_of(r) == timestamp_parsed(value@),
        r matches Some(t) ==> t@.wf(),
{
    match parse_naive_datetime(value, "%Y-%m-%dT%H:%M:%S%.f") {
        Some(t) => Some(t),
        None => match parse_naive_datetime(value, "%Y-%m-%dT%H:%M:%S") {
            Some(t) => Some(t),
            None => parse_naive_datetime(value, "%Y-%m-%dT%H:%M"),
        },
    }
}

/// `NaiveDateTime::checked_add_signed` with a `TimeDelta` of whole seconds:
/// the time so many seconds away, or nothing where the date leaves the
/// range of a `NaiveDate`. A leap second is left behind by any move:
/// forwards it counts as the second that it extends, backwards as the
/// second after it; with no seconds to add, the time stays as it is.
#[verifier::external_body]
pub(crate) fn add_whole_seconds(t: &Timestamp, secs: i64) -> (r: Option<Timestamp>)
    requires
        t@.wf(),
    ensures
        moment_of(r) == t@.plus_seconds(secs as int),
        r matches Some(x) ==> x@.wf(),
{
    let delta = chrono::TimeDelta::try_seconds(secs)?;
    let date = chrono::NaiveDate::from_num_days_from_ce_opt(t.day).unwrap();
    let time = chrono::NaiveTime::from_num_seconds_from_midnight_opt(t.sec, t.nano).unwrap();
    let sum = date.and_time(time).checked_add_signed(delta)?;
    Some(
        Timestamp {
            day: sum.date().num_days_from_ce(),
            sec: sum.time().num_seconds_from_midnight(),
            nano: sum.time().nanosecond(),
        },
    )
}

/// `NaiveDateTime::signed_duration_since`, then `TimeDelta::to_std`: the
/// time from an earlier to a later time in whole seconds and nanoseconds
/// below a second, or nothing where that time is negative. A leap second at
/// the earlier of two different seconds of the day is counted in full.
#[verifier::external_body]
pub(crate) fn elapsed_between(earlier: &Timestamp, later: &Timestamp) -> (r: Option<(u64, u32)>)
    requires
        earlier@.wf(),
        later@.wf(),
    ensures
        match r {
            Some(d) => {
                &&& later@.nanos_since(earlier@) >= 0
                &&& d.0 == later@.nanos_since(earlier@) / 1_000_000_000
                &&& d.1 == later@.nanos_since(earlier@) % 1_000_000_000
            },
            None => later@.nanos_since(earlier@) < 0,
        },
{
    let from = chrono::NaiveDate::from_num_days_from_ce_opt(earlier.day).unwrap().and_time(
        chrono::NaiveTime::from_num_seconds_from_midnight_opt(earlier.sec, earlier.nano).unwrap(),
    );
    let to = chrono::NaiveDate::from_num_days_from_ce_opt(later.day).unwrap().and_time(
        chrono::NaiveTime::from_num_seconds_from_midnight_opt(later.sec, later.nano).unwrap(),
    );
    let gap = to.signed_duration_since(from).to_std().ok()?;
    Some((gap.as_secs(), gap.subsec_nanos()))
}

impl Timestamp {
    /// Whether the fields are within their ranges.
    pub fn is_valid(&self) -> (r: bool)
        ensures
            r == self@.wf(),
    {
        MIN_DAY <= self.day && self.day <= MAX_DAY && self.sec < 86_400 && self.nano
            < 2_000_000_000 && (self.nano < 1_000_000_000 || self.sec % 60 == 59)
    }

    /// The start of a minute of a day.
    pub fn at_minute(day: i32, minute_of_day: u32) -> (r: Timestamp)
        requires
            minute_of_day < 1440,
        ensures
            r@ == moment_at(day as int, minute_of_day as int),
    {
        Timestamp { day, sec: minute_of_day * 60, nano: 0 }
    }

    /// Whether this timestamp is strictly earlier than another.
    pub fn is_before(&self, other: &Timestamp) -> (r: bool)
        requires
            self@.wf(),
            other@.wf(),
        ensures
            r == (self@.key() < other@.key()),
    {
        self.day < other.day || (self.day == other.day && (self.sec < other.sec || (self.sec
            == other.sec && self.nano < other.nano)))
    }

    /// Whether this timestamp is strictly later than another.
    pub fn is_after(&self, other: &Timestamp) -> (r: bool)
        requires
            self@.wf(),
            other@.wf(),
        ensures
            r == (self@.key() > other@.key()),
    {
        other.is_before(self)
    }

    /// Whether the time of day is strictly earlier than the start of a minute.
    pub fn time_before_minute(&self, minute_of_day: u32) -> (r: bool)
        requires
            self@.wf(),
            minute_of_day < 1440,
        ensures
            r == (self@.time_key() < moment_at(0, minute_of_day as int).time_key()),
    {
        self.sec < minute_of_day * 60
    }

    /// Whether the time of day is strictly later than the start of a minute.
    pub fn time_after_minute(&self, minute_of_day: u32) -> (r: bool)
        requires
            self@.wf(),
            minute_of_day < 1440,
        ensures
            r == (self@.time_key() > moment_at(0, minute_of_day as int).time_key()),
    {
        self.sec > minute_of_day * 60 || (self.sec == minute_of_day * 60 && self.nano > 0)
    }

    /// Day of the week, 1 for Monday to 7 for Sunday.
    pub fn weekday(&self) -> (r: u32)
        requires
            self@.wf(),
        ensures
            r == self@.weekday(),
            1 <= r <= 7,
    {
        // 95_746_133 is a multiple of 7 that lifts every day number above zero.
        let lifted: i64 = self.day as i64 - 1 + 95_746_133;
        let r: i64 = lifted % 7 + 1;
        r as u32
    }

    /// The day after this timestamp's day; the last representable day is its
    /// own successor.
    pub fn next_day(&self) -> (r: i32)
        requires
            self@.wf(),
        ensures
            r == if self.day < MAX_DAY {
                self.day + 1
            } else {
                self.day as int
            },
    {
        if self.day < MAX_DAY {
            self.day + 1
        } else {
            self.day
        }
    }

    /// The same second without its leap second: a leap second becomes the
    /// second that it extends.
    pub fn without_leap(&self) -> (r: Timestamp)
        requires
            self@.wf(),
        ensures
            r@ == (Moment { nano: self@.nano % 1_000_000_000, ..self@ }),
            r@.wf(),
            r.nano < 1_000_000_000,
            r@.key() <= self@.key(),
    {
        Timestamp { day: self.day, sec: self.sec, nano: self.nano % 1_000_000_000 }
    }

    /// The timestamp a whole number of seconds away, or nothing when that
    /// leaves the representable range.
    pub fn checked_add_seconds(&self, secs: i64) -> (r: Option<Timestamp>)
        requires
            self@.wf(),
        ensures
            moment_of(r) == self@.plus_seconds(secs as int),
            r matches Some(t) ==> t@.wf(),
    {
        add_whole_seconds(self, secs)
    }

    /// The timestamp a whole number of minutes away, or nothing when that
    /// leaves the representable range.
    pub fn checked_add_minutes(&self, minutes: i64) -> (r: Option<Timestamp>)
        requires
            self@.wf(),
        ensures
            moment_of(r) == self@.plus_seconds(minutes as int * 60),
            r matches Some(t) ==> t@.wf(),
    {
        if minutes > 300_000_000_000 || minutes < -300_000_000_000 {
            assert(self@.plus_seconds(minutes as int * 60) is None);
            return None;
        }
        self.checked_add_seconds(minutes * 60)
    }

    /// Nanoseconds from `earlier` to this timestamp as whole seconds and the
    /// rest, or nothing when this timestamp does not lie after `earlier`.
    pub fn duration_since(&self, earlier: &Timestamp) -> (r: Option<(u64, u32)>)
        requires
            self@.wf(),
            earlier@.wf(),
        ensures
            match r {
                Some(d) => {
                    &&& self@.nanos_since(earlier@) >= 0
                    &&& d.0 == self@.nanos_since(earlier@) / 1_000_000_000
                    &&& d.1 == self@.nanos_since(earlier@) % 1_000_000_000
                },
                None => self@.nanos_since(earlier@) < 0,
            },
    {
        elapsed_between(earlier, self)
    }

    /// Whole seconds from `now` to this timestamp, and zero when it is not
    /// in the future.
    pub fn seconds_until_from(&self, now: &Timestamp) -> (r: u64)
        requires
            self@.wf(),
            now@.wf(),
        ensures
            r == if self@.seconds_since(now@) > 0 {
                self@.seconds_since(now@)
            } else {
                0
            },
    {
        match self.duration_since(now) {
            Some(d) => d.0,
            None => {
                assert(self@.seconds_since(now@) <= 0) by {
                    let n = self@.nanos_since(now@);
                    assert((-n) / 1_000_000_000 >= 0);
                }
                0
            },
        }
    }
}

/// Two moments within their ranges that have the same key are the same.
pub proof fn lemma_key_injective(a: Moment, b: Moment)
    requires
        a.wf(),
        b.wf(),
        a.key() == b.key(),
    ensures
        a == b,
{
    let x = a.second_count();
    let y = b.second_count();
    if x < y {
        assert(x * 2_000_000_000 + 2_000_000_000 <= y * 2_000_000_000) by (nonlinear_arith)
            requires
                x + 1 <= y,
        ;
    } else if y < x {
        assert(y * 2_000_000_000 + 2_000_000_000 <= x * 2_000_000_000) by (nonlinear_arith)
            requires
                y + 1 <= x,
        ;
    }
    if a.day < b.day {
        assert(a.day * 86_400 + 86_400 <= b.day * 86_400) by (nonlinear_arith)
            requires
                a.day + 1 <= b.day,
        ;
    } else if b.day < a.day {
        assert(b.day * 86_400 + 86_400 <= a.day * 86_400) by (nonlinear_arith)
            requires
                b.day + 1 <= a.day,
        ;
    }
}

/// A moment a positive number of seconds away is within its ranges and
/// later.
pub proof fn lemma_plus_seconds_later(m: Moment, secs: int)
    requires
        m.wf(),
        secs > 0,
        m.plus_seconds(secs) is Some,
    ensures
        m.plus_seconds(secs)->0.wf(),
        m.plus_seconds(secs)->0.key() > m.key(),
{
    let r = m.plus_seconds(secs)->0;
    let total = m.second_count() + secs;
    vstd::arithmetic::div_mod::lemma_fundamental_div_mod(total, 86_400);
    vstd::arithmetic::div_mod::lemma_mod_bound(total, 86_400);
    assert(r.second_count() == total);
    assert(r.second_count() * 2_000_000_000 >= m.second_count() * 2_000_000_000
        + 2_000_000_000) by (nonlinear_arith)
        requires
            r.second_count() >= m.second_count() + 1,
    ;
    if m.nano >= 1_000_000_000 {
        assert(m.sec % 60 == 59);
        assert(r.sec % 60 == 59 || r.nano < 1_000_000_000);
    }
}

} // verus!
