//! Calendar days and wall-clock timestamps.
//!
//! A [`Date`] is a day of the proleptic Gregorian calendar, held as its day
//! number (January 1 of year 1 is day 1). Telling which of two dates is the
//! earlier and stepping by a day are plain integer arithmetic on that number.
//! What needs the calendar itself (year, month, day of month, ISO week, the
//! reading of a written date and the words for one that cannot be read) is
//! asked of `chrono` through the trusted functions at the end of this file.
//!
//! A [`DateTime`] is a date with the second of the day and the nanosecond of
//! that second, as `chrono` holds a timestamp without a zone, leap seconds
//! included. The whole minutes between two timestamps are computed here.

use crate::text::{push_zero_padded, zero_padded};
use chrono::Datelike;
use vstd::prelude::*;
use vstd::string::StringExecFns;

verus! {

/// Day number of the earliest date that can be represented (January 1, 262144 BCE).
pub const MIN_DAY: i32 = -95_746_129;

/// Day number of the latest date that can be represented (December 31, 262142 CE).
pub const MAX_DAY: i32 = 95_745_399;

/// Seconds in a day.
pub const SECONDS_PER_DAY: u32 = 86_400;

/// Nanoseconds in a second.
pub const NANOS_PER_SECOND: u32 = 1_000_000_000;

/// Calendar year of the day with the given number.
pub uninterp spec fn civil_year(day: int) -> int;

/// Calendar month (1 to 12) of the day with the given number.
pub uninterp spec fn civil_month(day: int) -> int;

/// Day of the month (1 to 31) of the day with the given number.
pub uninterp spec fn civil_day(day: int) -> int;

/// ISO 8601 week number (1 to 53) of the day with the given number.
pub uninterp spec fn iso_week(day: int) -> int;

/// Day number of a calendar date, or `None` where no such date exists or can
/// be represented.
pub uninterp spec fn day_number(year: int, month: int, day: int) -> Option<int>;

/// What parsing `text` as a date written in the format `format` gives: the
/// day number, or the sentence in which chrono says why the text is no such
/// date.
pub uninterp spec fn parsed_date(text: Seq<char>, format: Seq<char>) -> Result<int, Seq<char>>;

/// Why a text is not a date, in the parser's words.
#[derive(Clone, Debug, PartialEq, Eq)]
pub struct DateError {
    pub message: String,
}

/// The format of a date written as year, month and day: `2024-06-01`.
pub const ISO_DATE: &'static str = "%Y-%m-%d";

/// Whether `day` is the number of a representable date.
pub open spec fn valid_day(day: int) -> bool {
    MIN_DAY <= day <= MAX_DAY
}

/// The text of a year: four digits for the years 0 to 9999, otherwise a sign
/// and at least four digits.
pub open spec fn year_text(year: int) -> Seq<char> {
    if 0 <= year <= 9999 {
        zero_padded(year as nat, 4)
    } else if year < 0 {
        seq!['-'] + zero_padded((-year) as nat, 4)
    } else {
        seq!['+'] + zero_padded(year as nat, 4)
    }
}

/// The text `YYYY-MM-DD` of a calendar date.
pub open spec fn civil_text(year: int, month: int, day: int) -> Seq<char> {
    year_text(year) + seq!['-'] + zero_padded(month as nat, 2) + seq!['-'] + zero_padded(
        day as nat,
        2,
    )
}

/// The text `YYYY-MM-DD` of the day with the given number.
pub open spec fn date_text(day: int) -> Seq<char> {
    civil_text(civil_year(day), civil_month(day), civil_day(day))
}

/// A calendar date.
#[derive(Clone, Copy, Debug, PartialEq, Eq, Structural, PartialOrd, Ord, Hash)]
pub struct Date {
    days: i32,
}

impl View for Date {
    type V = int;

    /// The day number.
    closed spec fn view(&self) -> int {
        self.days as int
    }
}

impl Date {
    #[verifier::type_invariant]
    spec fn in_range(self) -> bool {
        valid_day(self.days as int)
    }

    /// The date with the given day number, if it can be represented.
    pub fn from_days(days: i32) -> (r: Option<Date>)
        ensures
            r.is_some() == valid_day(days as int),
            r matches Some(d) ==> d@ == days,
    {
        if MIN_DAY <= days && days <= MAX_DAY {
            Some(Date { days })
        } else {
            None
        }
    }

    /// The date of a year, month and day of month, if there is such a date.
    pub fn from_ymd(year: i32, month: u32, day: u32) -> (r: Option<Date>)
        ensures
            r.is_some() == day_number(year as int, month as int, day as int).is_some(),
            r matches Some(d) ==> day_number(year as int, month as int, day as int) == Some(d@),
            r matches Some(d) ==> civil_year(d@) == year && civil_month(d@) == month && civil_day(
                d@,
            ) == day,
    {
        match chrono_day_number(year, month, day) {
            Some(days) => Some(Date { days }),
            None => None,
        }
    }

    /// The date that `text` gives when read in the format `format`, which is
    /// written with the `%` fields of `strftime`.
    pub fn parse_from_str(text: &str, format: &str) -> (r: Result<Date, DateError>)
        ensures
            r is Ok <==> parsed_date(text@, format@) is Ok,
            r matches Ok(date) ==> parsed_date(text@, format@) == Ok::<int, Seq<char>>(date@),
            r matches Err(error) ==> parsed_date(text@, format@) == Err::<int, Seq<char>>(
                error.message@,
            ),
    {
        match chrono_parse_date(text, format) {
            Ok(days) => Ok(Date { days }),
            Err(message) => Err(DateError { message }),
        }
    }

    /// The day number of this date.
    pub fn days(&self) -> (r: i32)
        ensures
            r == self@,
            valid_day(r as int),
    {
        proof {
            use_type_invariant(self);
        }
        self.days
    }

    /// The calendar year.
    pub fn year(&self) -> (r: i32)
        ensures
            r == civil_year(self@),
    {
        proof {
            use_type_invariant(self);
        }
        chrono_year(self.days)
    }

    /// The calendar month, 1 to 12.
    pub fn month(&self) -> (r: u32)
        ensures
            r == civil_month(self@),
            1 <= r <= 12,
    {
        proof {
            use_type_invariant(self);
        }
        chrono_month(self.days)
    }

    /// The day of the month, 1 to 31.
    pub fn day(&self) -> (r: u32)
        ensures
            r == civil_day(self@),
            1 <= r <= 31,
    {
        proof {
            use_type_invariant(self);
        }
        chrono_day(self.days)
    }

    /// The ISO 8601 week number, 1 to 53.
    pub fn iso_week(&self) -> (r: u32)
        ensures
            r == iso_week(self@),
            1 <= r <= 53,
    {
        proof {
            use_type_invariant(self);
        }
        chrono_iso_week(self.days)
    }

    /// The following day, or `None` after the last representable date.
    pub fn succ(&self) -> (r: Option<Date>)
        ensures
            r.is_some() == (self@ < MAX_DAY),
            r matches Some(d) ==> d@ == self@ + 1,
    {
        proof {
            use_type_invariant(self);
        }
        if self.days < MAX_DAY {
            Some(Date { days: self.days + 1 })
        } else {
            None
        }
    }

    /// Whether this date is `other` or an earlier day.
    pub fn on_or_before(&self, other: &Date) -> (r: bool)
        ensures
            r == (self@ <= other@),
    {
        self.days <= other.days
    }

    /// Whether both are the same day.
    pub fn same_day(&self, other: &Date) -> (r: bool)
        ensures
            r == (self@ == other@),
    {
        self.days == other.days
    }

    /// The date written as `YYYY-MM-DD`; years outside 0 to 9999 carry a sign.
    pub fn to_string(&self) -> (r: String)
        ensures
            r@ == date_text(self@),
    {
        let year: i32 = self.year();
        let month: u32 = self.month();
        let day: u32 = self.day();
        let mut out = String::new();
        if 0 <= year && year <= 9999 {
            push_zero_padded(&mut out, year as u64, 4);
        } else if year < 0 {
            out.append("-");
            push_zero_padded(&mut out, (-(year as i64)) as u64, 4);
        } else {
            out.append("+");
            push_zero_padded(&mut out, year as u64, 4);
        }
        proof {
            reveal_strlit("-");
            reveal_strlit("+");
            assert("-"@ =~= seq!['-']);
            assert("+"@ =~= seq!['+']);
            assert(out@ =~= year_text(year as int));
        }
        out.append("-");
        push_zero_padded(&mut out, month as u64, 2);
        out.append("-");
        push_zero_padded(&mut out, day as u64, 2);
        proof {
            assert(out@ =~= date_text(self@));
        }
        out
    }
}

/// What a [`DateTime`] stands for: a day, the second within it and the
/// nanosecond within that second.
pub ghost struct Instant {
    pub day: int,
    pub second: int,
    pub nano: int,
}

/// Whether the fields are those of a timestamp: a representable day, a second
/// of the day, and a nanosecond that passes one second only to write a leap
/// second, which follows a 59th second.
pub open spec fn valid_instant(t: Instant) -> bool {
    &&& valid_day(t.day)
    &&& 0 <= t.second < SECONDS_PER_DAY
    &&& 0 <= t.nano < 2 * NANOS_PER_SECOND
    &&& (t.nano >= NANOS_PER_SECOND ==> t.second % 60 == 59)
}

/// Nanoseconds from `start` to `end`, negative where `end` is the earlier.
///
/// A leap second that `start` or `end` is written in counts only where the
/// other lies in another second of the day.
pub open spec fn elapsed_nanos(start: Instant, end: Instant) -> int {
    let leap: int = if end.second > start.second && start.nano >= NANOS_PER_SECOND {
        1
    } else if end.second < start.second && end.nano >= NANOS_PER_SECOND {
        -1
    } else {
        0
    };
    ((end.day - start.day) * SECONDS_PER_DAY + (end.second - start.second) + leap)
        * NANOS_PER_SECOND + (end.nano - start.nano)
}

/// The whole minutes in a span of nanoseconds, rounded toward zero.
pub open spec fn whole_minutes(nanos: int) -> int {
    if nanos >= 0 {
        nanos / 60_000_000_000
    } else {
        -((-nanos) / 60_000_000_000)
    }
}

/// Whether `a` is a later instant than `b`.
pub open spec fn later_than(a: Instant, b: Instant) -> bool {
    a.day > b.day || (a.day == b.day && (a.second > b.second || (a.second == b.second && a.nano
        > b.nano)))
}

/// Whole minutes from `start` to `end`.
pub open spec fn minutes_between(start: Instant, end: Instant) -> int {
    whole_minutes(elapsed_nanos(start, end))
}

/// A date and a time of day, without a time zone.
#[derive(Clone, Copy, Debug, PartialEq, Eq, Structural, PartialOrd, Ord, Hash)]
pub struct DateTime {
    date: Date,
    second: u32,
    nano: u32,
}

impl View for DateTime {
    type V = Instant;

    closed spec fn view(&self) -> Instant {
        Instant { day: self.date@, second: self.second as int, nano: self.nano as int }
    }
}

impl DateTime {
    #[verifier::type_invariant]
    spec fn in_range(self) -> bool {
        valid_instant(self@)
    }

    /// The timestamp on `date` at `second` seconds after midnight and `nano`
    /// nanoseconds into that second, if these are a time of day.
    pub fn new(date: Date, second: u32, nano: u32) -> (r: Option<DateTime>)
        ensures
            r.is_some() == valid_instant(
                Instant { day: date@, second: second as int, nano: nano as int },
            ),
            r matches Some(t) ==> t@ == (Instant {
                day: date@,
                second: second as int,
                nano: nano as int,
            }),
    {
        proof {
            use_type_invariant(&date);
        }
        if second >= SECONDS_PER_DAY || nano >= 2_000_000_000 || (nano >= NANOS_PER_SECOND
            && second % 60 != 59) {
            None
        } else {
            Some(DateTime { date, second, nano })
        }
    }

    /// The timestamp on `date` at the given hour, minute and second.
    pub fn from_hms(date: Date, hour: u32, minute: u32, second: u32) -> (r: Option<DateTime>)
        ensures
            r.is_some() == (hour < 24 && minute < 60 && second < 60),
            r matches Some(t) ==> t@ == (Instant {
                day: date@,
                second: hour * 3600 + minute * 60 + second,
                nano: 0,
            }),
    {
        proof {
            use_type_invariant(&date);
        }
        if hour < 24 && minute < 60 && second < 60 {
            Some(DateTime { date, second: hour * 3600 + minute * 60 + second, nano: 0 })
        } else {
            None
        }
    }

    /// The day of this timestamp.
    pub fn date(&self) -> (r: Date)
        ensures
            r@ == self@.day,
    {
        self.date
    }

    /// Seconds since midnight.
    pub fn second_of_day(&self) -> (r: u32)
        ensures
            r == self@.second,
            valid_instant(self@),
    {
        proof {
            use_type_invariant(self);
        }
        self.second
    }

    /// Nanoseconds into the second; one second or more in a leap second.
    pub fn nanosecond(&self) -> (r: u32)
        ensures
            r == self@.nano,
            valid_instant(self@),
    {
        proof {
            use_type_invariant(self);
        }
        self.nano
    }

    /// Whether this timestamp is later than `other`.
    pub fn is_after(&self, other: &DateTime) -> (r: bool)
        ensures
            r == later_than(self@, other@),
    {
        let day: i32 = self.date.days();
        let other_day: i32 = other.date.days();
        day > other_day || (day == other_day && (self.second > other.second || (self.second
            == other.second && self.nano > other.nano)))
    }

    /// Whole minutes from this timestamp to `end`, rounded toward zero;
    /// negative where `end` is the earlier.
    pub fn minutes_until(&self, end: &DateTime) -> (r: i64)
        ensures
            r == minutes_between(self@, end@),
            -300_000_000_000 < r < 300_000_000_000,
    {
        proof {
            use_type_invariant(self);
            use_type_invariant(end);
        }
        let start_day: i32 = self.date.days();
        let end_day: i32 = end.date.days();
        let leap: i128 = if end.second > self.second && self.nano >= NANOS_PER_SECOND {
            1
        } else if end.second < self.second && end.nano >= NANOS_PER_SECOND {
            -1
        } else {
            0
        };
        let days: i128 = end_day as i128 - start_day as i128;
        let seconds: i128 = days * 86_400 + (end.second as i128 - self.second as i128) + leap;
        let nanos: i128 = seconds * 1_000_000_000 + (end.nano as i128 - self.nano as i128);
        assert(nanos == elapsed_nanos(self@, end@));
        if nanos >= 0 {
            let minutes: i128 = nanos / 60_000_000_000;
            minutes as i64
        } else {
            let minutes: i128 = (-nanos) / 60_000_000_000;
            (-minutes) as i64
        }
    }
}

/// `chrono::NaiveDate::from_ymd_opt`, read back with
/// `Datelike::num_days_from_ce`: the day number of the calendar date, `None`
/// where chrono has no such date. Every date of chrono has a day number from
/// `MIN_DAY` to `MAX_DAY`, and the date made of a year, a month and a day has
/// that year, month and day.
#[verifier::external_body]
fn chrono_day_number(year: i32, month: u32, day: u32) -> (r: Option<i32>)
    ensures
        r.is_some() == day_number(year as int, month as int, day as int).is_some(),
        r matches Some(d) ==> day_number(year as int, month as int, day as int) == Some(d as int)
            && valid_day(d as int),
        r matches Some(d) ==> civil_year(d as int) == year && civil_month(d as int) == month
            && civil_day(d as int) == day,
{
    chrono::NaiveDate::from_ymd_opt(year, month, day).map(|d| d.num_days_from_ce())
}

/// `chrono::NaiveDate::parse_from_str`, the date read back with
/// `Datelike::num_days_from_ce` and the error written out by the `Display`
/// of `chrono::format::ParseError`: what chrono makes of the text, which
/// depends on the text and the format alone. A date of chrono has a day
/// number from `MIN_DAY` to `MAX_DAY`.
#[verifier::external_body]
fn chrono_parse_date(text: &str, format: &str) -> (r: Result<i32, String>)
    ensures
        r is Ok <==> parsed_date(text@, format@) is Ok,
        r matches Ok(days) ==> valid_day(days as int) && parsed_date(text@, format@)->Ok_0 == days,
        r matches Err(message) ==> parsed_date(text@, format@)->Err_0 == message@,
{
    match chrono::NaiveDate::parse_from_str(text, format) {
        Ok(date) => Ok(date.num_days_from_ce()),
        Err(error) => Err(error.to_string()),
    }
}

/// `Datelike::year` of the `chrono::NaiveDate` with the given day number.
#[verifier::external_body]
fn chrono_year(days: i32) -> (r: i32)
    requires
        valid_day(days as int),
    ensures
        r == civil_year(days as int),
{
    chrono::NaiveDate::from_num_days_from_ce_opt(days).unwrap().year()
}

/// `Datelike::month` of the `chrono::NaiveDate` with the given day number,
/// which chrono counts from 1 to 12.
#[verifier::external_body]
fn chrono_month(days: i32) -> (r: u32)
    requires
        valid_day(days as int),
    ensures
        r == civil_month(days as int),
        1 <= r <= 12,
{
    chrono::NaiveDate::from_num_days_from_ce_opt(days).unwrap().month()
}

/// `Datelike::day` of the `chrono::NaiveDate` with the given day number,
/// which chrono counts from 1 to 31.
#[verifier::external_body]
fn chrono_day(days: i32) -> (r: u32)
    requires
        valid_day(days as int),
    ensures
        r == civil_day(days as int),
        1 <= r <= 31,
{
    chrono::NaiveDate::from_num_days_from_ce_opt(days).unwrap().day()
}

/// `IsoWeek::week` of `Datelike::iso_week` of the `chrono::NaiveDate` with
/// the given day number, which chrono counts from 1 to 53.
#[verifier::external_body]
fn chrono_iso_week(days: i32) -> (r: u32)
    requires
        valid_day(days as int),
    ensures
        r == iso_week(days as int),
        1 <= r <= 53,
{
    chrono::NaiveDate::from_num_days_from_ce_opt(days).unwrap().iso_week().week()
}

} // verus!
