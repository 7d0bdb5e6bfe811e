use crate::error::{error_for, AppError, AppErrorCode};
use crate::storage::{elapsed_since_unix_epoch, system_now, whole_seconds};
use chrono::{DateTime, Datelike, Days, Local, NaiveDate};
use vstd::prelude::*;
use vstd::string::StringSliceAdditionalSpecFns;
use vstd::utf8::is_ascii_chars;

verus! {

// ---------------------------------------------------------------------------
// The proleptic Gregorian calendar
// ---------------------------------------------------------------------------
pub open spec fn is_leap_year(year: int) -> bool {
    (year % 4 == 0 && year % 100 != 0) || year % 400 == 0
}

pub open spec fn days_in_month(year: int, month: int) -> int {
    if month == 2 {
        if is_leap_year(year) {
            29
        } else {
            28
        }
    } else if month == 4 || month == 6 || month == 9 || month == 11 {
        30
    } else {
        31
    }
}

/// `(year, month, day)` names a day of the proleptic Gregorian calendar.
pub open spec fn is_valid_date(year: int, month: int, day: int) -> bool {
    1 <= month <= 12 && 1 <= day <= days_in_month(year, month)
}

/// The years whose dates have a ten-character `YYYY-MM-DD` spelling.
pub open spec fn is_four_digit_year(year: int) -> bool {
    0 <= year <= 9999
}

/// The range of years that chrono's `NaiveDate` represents.
pub open spec fn is_chrono_year(year: int) -> bool {
    -262144 <= year <= 262143
}

/// The calendar day after `(year, month, day)`.
pub open spec fn next_date(year: int, month: int, day: int) -> (int, int, int) {
    if day < days_in_month(year, month) {
        (year, month, day + 1)
    } else if month < 12 {
        (year, month + 1, 1)
    } else {
        (year + 1, 1, 1)
    }
}

/// The calendar day before `(year, month, day)`.
pub open spec fn previous_date(year: int, month: int, day: int) -> (int, int, int) {
    if day > 1 {
        (year, month, day - 1)
    } else if month > 1 {
        (year, month - 1, days_in_month(year, month - 1))
    } else {
        (year - 1, 12, 31)
    }
}

/// The day after a real day is a real day, and the day before it is the day we started
/// from: stepping forward then back returns to the same day.
pub proof fn lemma_next_then_previous(year: int, month: int, day: int)
    requires
        is_valid_date(year, month, day),
    ensures
        is_valid_date(
            next_date(year, month, day).0,
            next_date(year, month, day).1,
            next_date(year, month, day).2,
        ),
        previous_date(
            next_date(year, month, day).0,
            next_date(year, month, day).1,
            next_date(year, month, day).2,
        ) == (year, month, day),
{
}

/// The day before a real day is a real day, and the day after it is the day we started
/// from: stepping back then forward returns to the same day.
pub proof fn lemma_previous_then_next(year: int, month: int, day: int)
    requires
        is_valid_date(year, month, day),
    ensures
        is_valid_date(
            previous_date(year, month, day).0,
            previous_date(year, month, day).1,
            previous_date(year, month, day).2,
        ),
        next_date(
            previous_date(year, month, day).0,
            previous_date(year, month, day).1,
            previous_date(year, month, day).2,
        ) == (year, month, day),
{
    if day == 1 && month == 3 {
        assert(days_in_month(year, 2) == 28 || days_in_month(year, 2) == 29);
    }
}

// ---------------------------------------------------------------------------
// The canonical `YYYY-MM-DD` spelling
// ---------------------------------------------------------------------------
pub open spec fn digit_char(n: int) -> char {
    (n + 48) as char
}

pub open spec fn is_digit_char(c: char) -> bool {
    '0' <= c <= '9'
}

pub open spec fn digit_value(c: char) -> int {
    c as int - 48
}

/// The ten characters `YYYY-MM-DD` of a date whose year has four digits.
pub open spec fn canonical_text(year: int, month: int, day: int) -> Seq<char> {
    seq![
        digit_char(year / 1000),
        digit_char((year / 100) % 10),
        digit_char((year / 10) % 10),
        digit_char(year % 10),
        '-',
        digit_char(month / 10),
        digit_char(month % 10),
        '-',
        digit_char(day / 10),
        digit_char(day % 10),
    ]
}

pub open spec fn text_year(s: Seq<char>) -> int {
    digit_value(s[0]) * 1000 + digit_value(s[1]) * 100 + digit_value(s[2]) * 10 + digit_value(
        s[3],
    )
}

pub open spec fn text_month(s: Seq<char>) -> int {
    digit_value(s[5]) * 10 + digit_value(s[6])
}

pub open spec fn text_day(s: Seq<char>) -> int {
    digit_value(s[8]) * 10 + digit_value(s[9])
}

/// `s` is exactly `YYYY-MM-DD` (ASCII digits, two hyphens) and names a real calendar day.
pub open spec fn is_canonical_date_text(s: Seq<char>) -> bool {
    &&& s.len() == 10
    &&& is_digit_char(s[0]) && is_digit_char(s[1]) && is_digit_char(s[2]) && is_digit_char(s[3])
    &&& s[4] == '-'
    &&& is_digit_char(s[5]) && is_digit_char(s[6])
    &&& s[7] == '-'
    &&& is_digit_char(s[8]) && is_digit_char(s[9])
    &&& is_valid_date(text_year(s), text_month(s), text_day(s))
}

/// The date that a canonical text names.
pub open spec fn text_date(s: Seq<char>) -> (int, int, int) {
    (text_year(s), text_month(s), text_day(s))
}

#[verifier::spinoff_prover]
#[verifier::rlimit(40)]
proof fn lemma_canonical_text_round_trip(year: int, month: int, day: int)
    requires
        is_valid_date(year, month, day),
        is_four_digit_year(year),
    ensures
        is_canonical_date_text(canonical_text(year, month, day)),
        text_date(canonical_text(year, month, day)) == (year, month, day),
        is_ascii_chars(canonical_text(year, month, day)),
{
    let s = canonical_text(year, month, day);
    assert(s.len() == 10);
    assert(digit_value(s[0]) == year / 1000);
    assert(digit_value(s[1]) == (year / 100) % 10);
    assert(digit_value(s[2]) == (year / 10) % 10);
    assert(digit_value(s[3]) == year % 10);
    assert(digit_value(s[5]) == month / 10);
    assert(digit_value(s[6]) == month % 10);
    assert(digit_value(s[8]) == day / 10);
    assert(digit_value(s[9]) == day % 10);
    assert(text_year(s) == year);
    assert(text_month(s) == month);
    assert(text_day(s) == day);
    assert(is_ascii_chars(s));
}

proof fn lemma_text_round_trip(s: Seq<char>)
    requires
        is_canonical_date_text(s),
    ensures
        canonical_text(text_year(s), text_month(s), text_day(s)) == s,
        is_four_digit_year(text_year(s)),
{
    let y = text_year(s);
    let m = text_month(s);
    let d = text_day(s);
    let (a0, a1, a2, a3) = (digit_value(s[0]), digit_value(s[1]), digit_value(s[2]), digit_value(s[3]));
    assert(0 <= a0 <= 9 && 0 <= a1 <= 9 && 0 <= a2 <= 9 && 0 <= a3 <= 9);
    assert(y / 1000 == a0) by (nonlinear_arith)
        requires y == a0 * 1000 + a1 * 100 + a2 * 10 + a3, 0 <= a0 <= 9, 0 <= a1 <= 9, 0 <= a2 <= 9, 0 <= a3 <= 9;
    assert((y / 100) % 10 == a1) by (nonlinear_arith)
        requires y == a0 * 1000 + a1 * 100 + a2 * 10 + a3, 0 <= a0 <= 9, 0 <= a1 <= 9, 0 <= a2 <= 9, 0 <= a3 <= 9;
    assert((y / 10) % 10 == a2) by (nonlinear_arith)
        requires y == a0 * 1000 + a1 * 100 + a2 * 10 + a3, 0 <= a0 <= 9, 0 <= a1 <= 9, 0 <= a2 <= 9, 0 <= a3 <= 9;
    assert(y % 10 == a3) by (nonlinear_arith)
        requires y == a0 * 1000 + a1 * 100 + a2 * 10 + a3, 0 <= a0 <= 9, 0 <= a1 <= 9, 0 <= a2 <= 9, 0 <= a3 <= 9;
    let (b0, b1) = (digit_value(s[5]), digit_value(s[6]));
    assert(m / 10 == b0 && m % 10 == b1) by (nonlinear_arith)
        requires m == b0 * 10 + b1, 0 <= b0 <= 9, 0 <= b1 <= 9;
    let (c0, c1) = (digit_value(s[8]), digit_value(s[9]));
    assert(d / 10 == c0 && d % 10 == c1) by (nonlinear_arith)
        requires d == c0 * 10 + c1, 0 <= c0 <= 9, 0 <= c1 <= 9;
    let t = canonical_text(y, m, d);
    assert(t[0] == s[0]);
    assert(t[1] == s[1]);
    assert(t[2] == s[2]);
    assert(t[3] == s[3]);
    assert(t[5] == s[5]);
    assert(t[6] == s[6]);
    assert(t[8] == s[8]);
    assert(t[9] == s[9]);
    assert(t =~= s);
}

/// A canonical date text is determined by the day it names: two canonical texts of the same
/// day are the same text. With the contracts of `next_day` and `previous_day`, stepping a
/// civil date forward and back gives back its very text.
pub proof fn lemma_canonical_text_determined_by_date(a: Seq<char>, b: Seq<char>)
    requires
        is_canonical_date_text(a),
        is_canonical_date_text(b),
        text_date(a) == text_date(b),
    ensures
        a == b,
{
    lemma_text_round_trip(a);
    lemma_text_round_trip(b);
}

// ---------------------------------------------------------------------------
// chrono, which computes the calendar
// ---------------------------------------------------------------------------
/// Calls `chrono::NaiveDate::parse_from_str(value, "%Y-%m-%d")` and returns the parsed
/// date's year, month and day. The contract claims that chrono only returns real calendar
/// days within its year range, and that a ten-character `YYYY-MM-DD` text naming a real
/// day parses to that day. What chrono does with other texts (signs, short fields,
/// leading spaces) is left unsaid.
#[verifier::external_body]
fn parse_iso_date(value: &str) -> (parsed: Option<(i32, u32, u32)>)
    ensures
        parsed matches Some(t) ==> is_valid_date(t.0 as int, t.1 as int, t.2 as int)
            && is_chrono_year(t.0 as int),
        is_canonical_date_text(value@) ==> parsed == Some(
            (text_year(value@) as i32, text_month(value@) as u32, text_day(value@) as u32),
        ),
{
    match NaiveDate::parse_from_str(value, "%Y-%m-%d") {
        Ok(date) => Some((date.year(), date.month(), date.day())),
        Err(_) => None,
    }
}

/// Calls chrono's `%F` formatting (`NaiveDate::format("%F")`) for a valid date. The contract
/// claims that a four-digit year gives exactly `YYYY-MM-DD`, that any other year gives a
/// text carrying a sign and so is not ten characters long, and that the text is ASCII.
#[verifier::external_body]
fn format_iso_date(year: i32, month: u32, day: u32) -> (text: String)
    requires
        is_valid_date(year as int, month as int, day as int),
        is_chrono_year(year as int),
    ensures
        is_four_digit_year(year as int) ==> text@ == canonical_text(
            year as int,
            month as int,
            day as int,
        ),
        !is_four_digit_year(year as int) ==> text@.len() != 10,
        text@.len() <= 13,
        is_ascii_chars(text@),
{
    match NaiveDate::from_ymd_opt(year, month, day) {
        Some(date) => date.format("%F").to_string(),
        None => String::new(),
    }
}

/// Calls `NaiveDate::checked_add_days(Days::new(1))`; for a four-digit-year date chrono
/// always has the next day, which the contract states.
#[verifier::external_body]
fn chrono_next_day(year: i32, month: u32, day: u32) -> (next: Option<(i32, u32, u32)>)
    requires
        is_valid_date(year as int, month as int, day as int),
        is_four_digit_year(year as int),
    ensures
        next == Some(
            (
                next_date(year as int, month as int, day as int).0 as i32,
                next_date(year as int, month as int, day as int).1 as u32,
                next_date(year as int, month as int, day as int).2 as u32,
            ),
        ),
{
    match NaiveDate::from_ymd_opt(year, month, day) {
        Some(date) => match date.checked_add_days(Days::new(1)) {
            Some(next) => Some((next.year(), next.month(), next.day())),
            None => None,
        },
        None => None,
    }
}

/// Calls `NaiveDate::checked_sub_days(Days::new(1))`; for a four-digit-year date chrono
/// always has the previous day, which the contract states.
#[verifier::external_body]
fn chrono_previous_day(year: i32, month: u32, day: u32) -> (previous: Option<(i32, u32, u32)>)
    requires
        is_valid_date(year as int, month as int, day as int),
        is_four_digit_year(year as int),
    ensures
        previous == Some(
            (
                previous_date(year as int, month as int, day as int).0 as i32,
                previous_date(year as int, month as int, day as int).1 as u32,
                previous_date(year as int, month as int, day as int).2 as u32,
            ),
        ),
{
    match NaiveDate::from_ymd_opt(year, month, day) {
        Some(date) => match date.checked_sub_days(Days::new(1)) {
            Some(previous) => Some((previous.year(), previous.month(), previous.day())),
            None => None,
        },
        None => None,
    }
}

/// One day past the last second of year 9999 (UTC), in seconds since the Unix epoch. A time
/// zone is less than a day away from UTC, so after this instant every local day lies in
/// year 10000 or later and has no four-digit spelling.
pub const LAST_CLOCK_SECOND: u64 = 253402387199;

/// The clock reading, in whole seconds since the Unix epoch, from which today's local day
/// is taken: a clock before the epoch, or past `LAST_CLOCK_SECOND`, gives no day with a
/// four-digit year and is refused as an invalid date.
pub fn clock_seconds(elapsed_seconds: Option<u64>) -> (result: Result<i64, AppError>)
    ensures
        result == match elapsed_seconds {
            Some(s) => if s <= LAST_CLOCK_SECOND {
                Ok::<i64, AppError>(s as i64)
            } else {
                Err(error_for(AppErrorCode::InvalidDate))
            },
            None => Err(error_for(AppErrorCode::InvalidDate)),
        },
{
    match elapsed_seconds {
        Some(seconds) => {
            if seconds <= LAST_CLOCK_SECOND {
                Ok(seconds as i64)
            } else {
                Err(AppError::invalid_date())
            }
        },
        None => Err(AppError::invalid_date()),
    }
}

/// The calendar day, in the machine's time zone, of the instant `seconds` after the Unix
/// epoch: `chrono::DateTime::from_timestamp(seconds, 0)`, then `with_timezone(&Local)` and
/// `date_naive()`. The day depends on the time zone; only that it is a real calendar day in
/// chrono's range is stated. Left unsaid: chrono stops with a panic on time-zone data whose
/// offset is a whole day or more, which the system's zone files do not hold.
#[verifier::external_body]
fn local_day_at(seconds: i64) -> (parts: Option<(i32, u32, u32)>)
    requires
        0 <= seconds <= LAST_CLOCK_SECOND,
    ensures
        parts matches Some(p) ==> is_valid_date(p.0 as int, p.1 as int, p.2 as int)
            && is_chrono_year(p.0 as int),
{
    match DateTime::from_timestamp(seconds, 0) {
        Some(instant) => {
            let date = instant.with_timezone(&Local).date_naive();
            Some((date.year(), date.month(), date.day()))
        },
        None => None,
    }
}

// ---------------------------------------------------------------------------
// CivilDate
// ---------------------------------------------------------------------------
/// A planner day, identified by its canonical `YYYY-MM-DD` text.
#[derive(Debug, PartialEq, Eq)]
pub struct CivilDate {
    canonical: String,
    year: i32,
    month: u32,
    day: u32,
}

impl View for CivilDate {
    type V = Seq<char>;

    closed spec fn view(&self) -> Seq<char> {
        self.canonical@
    }
}

impl Clone for CivilDate {
    fn clone(&self) -> (copy: Self)
        ensures
            copy == *self,
    {
        proof {
            use_type_invariant(self);
        }
        CivilDate {
            canonical: self.canonical.clone(),
            year: self.year,
            month: self.month,
            day: self.day,
        }
    }
}

enum Direction {
    Previous,
    Next,
}

/// The number of days in a month of a year from 0 to 9999.
fn month_length(year: i32, month: u32) -> (days: u32)
    requires
        is_four_digit_year(year as int),
        1 <= month <= 12,
    ensures
        days == days_in_month(year as int, month as int),
{
    if month == 2 {
        if (year % 4 == 0 && year % 100 != 0) || year % 400 == 0 {
            29
        } else {
            28
        }
    } else if month == 4 || month == 6 || month == 9 || month == 11 {
        30
    } else {
        31
    }
}

/// Byte length ten, the length of every canonical date text.
fn is_canonical_length(value: &str) -> (ok: bool)
    ensures
        ok == (value.len() == 10),
{
    value.len() == 10
}

impl CivilDate {
    #[verifier::type_invariant]
    spec fn is_well_formed(self) -> bool {
        &&& is_valid_date(self.year as int, self.month as int, self.day as int)
        &&& is_four_digit_year(self.year as int)
        &&& self.canonical@ == canonical_text(self.year as int, self.month as int, self.day as int)
    }

    /// Every civil date's text is canonical.
    pub fn lemma_canonical(&self)
        ensures
            is_canonical_date_text(self@),
    {
        proof {
            use_type_invariant(self);
            lemma_canonical_text_round_trip(self.year as int, self.month as int, self.day as int);
        }
    }

    /// Accepts exactly the canonical `YYYY-MM-DD` texts of real calendar days.
    pub fn parse(value: &str) -> (result: Result<Self, AppError>)
        ensures
            result is Ok <==> is_canonical_date_text(value@),
            result matches Ok(date) ==> date@ == value@,
            result matches Err(e) ==> e == error_for(AppErrorCode::InvalidDate),
    {
        match parse_iso_date(value) {
            None => Err(AppError::invalid_date()),
            Some((year, month, day)) => {
                let result = Self::from_naive_date(year, month, day, value);
                proof {
                    if is_canonical_date_text(value@) {
                        lemma_text_round_trip(value@);
                    }
                    if result is Ok {
                        lemma_canonical_text_round_trip(year as int, month as int, day as int);
                    }
                }
                result
            },
        }
    }

    /// Today's date on the machine's local clock. The clock reading is accepted or refused
    /// by `clock_seconds`; the local day of an accepted reading is kept when its year has
    /// four digits.
    pub fn today() -> (result: Result<Self, AppError>)
        ensures
            result matches Ok(date) ==> is_canonical_date_text(date@),
            result matches Err(e) ==> e == error_for(AppErrorCode::InvalidDate),
    {
        let elapsed_seconds = match elapsed_since_unix_epoch(system_now()) {
            Some(elapsed) => Some(whole_seconds(elapsed)),
            None => None,
        };
        let seconds = clock_seconds(elapsed_seconds)?;
        let (year, month, day) = match local_day_at(seconds) {
            Some(parts) => parts,
            None => return Err(AppError::invalid_date()),
        };
        let result = Self::from_local_parts(year, month, day);
        proof {
            if result is Ok {
                lemma_canonical_text_round_trip(year as int, month as int, day as int);
            }
        }
        result
    }

    /// The civil date of a local date-time, given as the year, month and day its local
    /// clock shows (`DateTime::date_naive`): its own calendar day, never a UTC day.
    pub fn from_local_datetime(year: i32, month: u32, day: u32) -> (result: Result<Self, AppError>)
        ensures
            result is Ok <==> is_valid_date(year as int, month as int, day as int)
                && is_four_digit_year(year as int),
            result matches Ok(date) ==> date@ == canonical_text(
                year as int,
                month as int,
                day as int,
            ),
            result matches Err(e) ==> e == error_for(AppErrorCode::InvalidDate),
    {
        if !(0 <= year && year <= 9999 && 1 <= month && month <= 12 && 1 <= day && day
            <= month_length(year, month)) {
            return Err(AppError::invalid_date());
        }
        Self::from_local_parts(year, month, day)
    }

    fn from_local_parts(year: i32, month: u32, day: u32) -> (result: Result<Self, AppError>)
        requires
            is_valid_date(year as int, month as int, day as int),
            is_chrono_year(year as int),
        ensures
            result is Ok <==> is_four_digit_year(year as int),
            result matches Ok(date) ==> date@ == canonical_text(
                year as int,
                month as int,
                day as int,
            ),
            result matches Err(e) ==> e == error_for(AppErrorCode::InvalidDate),
    {
        let canonical = format_iso_date(year, month, day);
        Self::from_naive_date(year, month, day, canonical.as_str())
    }

    /// The day before this one; the first day of year 0 has none.
    pub fn previous_day(&self) -> (result: Result<Self, AppError>)
        ensures
            result is Ok <==> text_date(self@) != (0int, 1int, 1int),
            result matches Ok(date) ==> text_date(date@) == previous_date(
                text_year(self@),
                text_month(self@),
                text_day(self@),
            ),
            result matches Ok(date) ==> is_canonical_date_text(date@),
            result matches Err(e) ==> e == error_for(AppErrorCode::InvalidDate),
    {
        self.shift_days(Direction::Previous)
    }

    /// The day after this one; the last day of year 9999 has none.
    pub fn next_day(&self) -> (result: Result<Self, AppError>)
        ensures
            result is Ok <==> text_date(self@) != (9999int, 12int, 31int),
            result matches Ok(date) ==> text_date(date@) == next_date(
                text_year(self@),
                text_month(self@),
                text_day(self@),
            ),
            result matches Ok(date) ==> is_canonical_date_text(date@),
            result matches Err(e) ==> e == error_for(AppErrorCode::InvalidDate),
    {
        self.shift_days(Direction::Next)
    }

    /// The canonical `YYYY-MM-DD` text.
    pub fn as_str(&self) -> (text: &str)
        ensures
            text@ == self@,
    {
        self.canonical.as_str()
    }

    /// Two civil dates name the same day exactly when their texts agree.
    pub fn same_day(&self, other: &Self) -> (same: bool)
        ensures
            same == (self@ == other@),
    {
        self.canonical == other.canonical
    }

    fn from_naive_date(year: i32, month: u32, day: u32, value: &str) -> (result: Result<
        Self,
        AppError,
    >)
        requires
            is_valid_date(year as int, month as int, day as int),
            is_chrono_year(year as int),
        ensures
            result is Ok <==> (is_four_digit_year(year as int) && value@ == canonical_text(
                year as int,
                month as int,
                day as int,
            )),
            result matches Ok(date) ==> date@ == canonical_text(
                year as int,
                month as int,
                day as int,
            ),
            result matches Err(e) ==> e == error_for(AppErrorCode::InvalidDate),
    {
        let canonical = format_iso_date(year, month, day);
        let expected = String::from_str(value);
        proof {
            broadcast use vstd::utf8::is_ascii_chars_encode_utf8;

            if is_four_digit_year(year as int) {
                lemma_canonical_text_round_trip(year as int, month as int, day as int);
            }
        }
        if !(canonical == expected) || !is_canonical_length(canonical.as_str()) {
            return Err(AppError::invalid_date());
        }
        Ok(Self { canonical, year, month, day })
    }

    fn shift_days(&self, direction: Direction) -> (result: Result<Self, AppError>)
        ensures
            direction is Next ==> (result is Ok <==> text_date(self@) != (9999int, 12int, 31int)),
            direction is Previous ==> (result is Ok <==> text_date(self@) != (0int, 1int, 1int)),
            direction is Next ==> (result matches Ok(date) ==> text_date(date@) == next_date(
                text_year(self@),
                text_month(self@),
                text_day(self@),
            )),
            direction is Previous ==> (result matches Ok(date) ==> text_date(date@)
                == previous_date(text_year(self@), text_month(self@), text_day(self@))),
            result matches Ok(date) ==> is_canonical_date_text(date@),
            result matches Err(e) ==> e == error_for(AppErrorCode::InvalidDate),
    {
        proof {
            use_type_invariant(self);
            lemma_canonical_text_round_trip(self.year as int, self.month as int, self.day as int);
        }
        let shifted = match direction {
            Direction::Previous => chrono_previous_day(self.year, self.month, self.day),
            Direction::Next => chrono_next_day(self.year, self.month, self.day),
        };
        let (year, month, day) = match shifted {
            Some(parts) => parts,
            None => return Err(AppError::invalid_date()),
        };
        assert(is_chrono_year(year as int));
        let canonical = format_iso_date(year, month, day);
        let result = Self::from_naive_date(year, month, day, canonical.as_str());
        proof {
            if result is Ok {
                lemma_canonical_text_round_trip(year as int, month as int, day as int);
            }
        }
        result
    }
}

} // verus!
