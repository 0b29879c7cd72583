//! Calendar dates of the proleptic Gregorian calendar, as chrono's `NaiveDate`
//! represents them: parsing `YYYY-MM-DD` text, formatting, ordering and the
//! previous day.

use vstd::prelude::*;
use chrono::Datelike;
use chrono::NaiveDate;
use crate::text::{trimmed, trim_text, join3};

verus! {

/// The earliest year that chrono's `NaiveDate` represents.
pub const MIN_YEAR: i32 = -262143;

/// The latest year that chrono's `NaiveDate` represents.
pub const MAX_YEAR: i32 = 262142;

pub open spec fn is_leap_year(year: int) -> bool {
    year % 4 == 0 && (year % 100 != 0 || year % 400 == 0)
}

pub open spec fn days_in_month(year: int, month: int) -> int {
    if month == 2 {
        if is_leap_year(year) {
            29
        } else {
            28
        }
    } else if month == 4 || month == 6 || month == 9 || month == 11 {
        30
    } else {
        31
    }
}

/// A date that exists in the calendar and that chrono can represent.
pub open spec fn is_valid_date(year: int, month: int, day: int) -> bool {
    &&& MIN_YEAR <= year <= MAX_YEAR
    &&& 1 <= month <= 12
    &&& 1 <= day <= days_in_month(year, month)
}

/// The first date that chrono can represent.
pub open spec fn first_date() -> (int, int, int) {
    (MIN_YEAR as int, 1, 1)
}

/// Chronological order of (year, month, day) triples.
pub open spec fn date_before(a: (int, int, int), b: (int, int, int)) -> bool {
    a.0 < b.0 || (a.0 == b.0 && (a.1 < b.1 || (a.1 == b.1 && a.2 < b.2)))
}

/// The calendar date just before a date.
pub open spec fn previous_date(date: (int, int, int)) -> (int, int, int) {
    if date.2 > 1 {
        (date.0, date.1, date.2 - 1)
    } else if date.1 > 1 {
        (date.0, date.1 - 1, days_in_month(date.0, date.1 - 1))
    } else {
        (date.0 - 1, 12, 31)
    }
}

pub open spec fn digit_char(n: int) -> char {
    (n + 48) as char
}

/// The decimal digits of a natural number, without leading zeros.
pub open spec fn decimal_digits(n: nat) -> Seq<char>
    decreases n,
{
    if n < 10 {
        seq![digit_char(n as int)]
    } else {
        decimal_digits(n / 10).push(digit_char((n % 10) as int))
    }
}

/// A text with zeros put in front of it up to `width` characters.
pub open spec fn zero_pad(s: Seq<char>, width: nat) -> Seq<char> {
    if s.len() >= width {
        s
    } else {
        Seq::new((width - s.len()) as nat, |i: int| '0') + s
    }
}

/// chrono's `%Y`: four digits for years 0 to 9999, otherwise a sign and at
/// least four digits.
pub open spec fn year_text(year: int) -> Seq<char> {
    if 0 <= year <= 9999 {
        zero_pad(decimal_digits(year as nat), 4)
    } else if year < 0 {
        seq!['-'] + zero_pad(decimal_digits((-year) as nat), 4)
    } else {
        seq!['+'] + zero_pad(decimal_digits(year as nat), 4)
    }
}

/// The `YYYY-MM-DD` text of a date.
pub open spec fn iso_date_text(date: (int, int, int)) -> Seq<char> {
    year_text(date.0) + seq!['-'] + zero_pad(decimal_digits(date.1 as nat), 2) + seq!['-']
        + zero_pad(decimal_digits(date.2 as nat), 2)
}

/// What chrono's `NaiveDate::parse_from_str(text, format)` gives back, as
/// (year, month, day), or `None` where it returns an error.
pub uninterp spec fn parsed_date(text: Seq<char>, format: Seq<char>) -> Option<(i32, u32, u32)>;

/// The date that `parse_date` reads from a text, if any.
pub open spec fn parsed_day(input: Seq<char>) -> Option<(int, int, int)> {
    match parsed_date(trimmed(input), "%Y-%m-%d"@) {
        Some(p) => Some((p.0 as int, p.1 as int, p.2 as int)),
        None => None,
    }
}

/// The message for a date text that does not parse.
pub open spec fn invalid_date_message(input: Seq<char>) -> Seq<char> {
    "Invalid date '"@ + input + "'. Use YYYY-MM-DD."@
}

/// Calls `NaiveDate::parse_from_str`. The contract claims that the result is
/// what chrono gives back for these arguments (the name `parsed_date`), and that
/// a date it gives back is a valid, representable calendar date (a `NaiveDate`
/// holds no other). How chrono reads the text is left to chrono.
#[verifier::external_body]
fn chrono_parse_date(text: &str, format: &str) -> (res: Option<(i32, u32, u32)>)
    ensures
        res == parsed_date(text@, format@),
        res matches Some(p) ==> is_valid_date(p.0 as int, p.1 as int, p.2 as int),
{
    match NaiveDate::parse_from_str(text, format) {
        Ok(d) => Some((d.year(), d.month(), d.day())),
        Err(_) => None,
    }
}

/// What chrono's `pred_opt` gives back for a valid date: `None` for the first
/// representable date, otherwise the previous calendar date.
pub open spec fn pred_result(year: int, month: int, day: int) -> Option<(i32, u32, u32)> {
    if (year, month, day) == first_date() {
        None
    } else {
        let p = previous_date((year, month, day));
        Some((p.0 as i32, p.1 as u32, p.2 as u32))
    }
}

/// Calls `NaiveDate::pred_opt` on the date built by `NaiveDate::from_ymd_opt`
/// (which gives back `Some` for a valid, representable date). The contract
/// claims what chrono documents: the previous calendar date, or `None` for the
/// first representable date.
#[verifier::external_body]
fn chrono_pred_opt(year: i32, month: u32, day: u32) -> (res: Option<(i32, u32, u32)>)
    requires
        is_valid_date(year as int, month as int, day as int),
    ensures
        res == pred_result(year as int, month as int, day as int),
{
    match NaiveDate::from_ymd_opt(year, month, day).unwrap().pred_opt() {
        Some(p) => Some((p.year(), p.month(), p.day())),
        None => None,
    }
}

/// Calls `NaiveDate::format` with the format `%Y-%m-%d` and `to_string` on the
/// date built by `NaiveDate::from_ymd_opt`. The contract claims what chrono's
/// format items do: `%Y` as `year_text`, `%m` and `%d` as two zero-padded digits.
#[verifier::external_body]
fn chrono_format_date(year: i32, month: u32, day: u32, format: &str) -> (res: String)
    requires
        is_valid_date(year as int, month as int, day as int),
        format@ == "%Y-%m-%d"@,
    ensures
        res@ == iso_date_text((year as int, month as int, day as int)),
{
    NaiveDate::from_ymd_opt(year, month, day).unwrap().format(format).to_string()
}

/// A valid calendar date that chrono can represent.
#[derive(Clone, Copy, Debug)]
pub struct CalendarDate {
    year: i32,
    month: u32,
    day: u32,
}

impl View for CalendarDate {
    type V = (int, int, int);

    closed spec fn view(&self) -> (int, int, int) {
        (self.year as int, self.month as int, self.day as int)
    }
}

/// A text parses to the date that chrono reads from its trimmed form with the
/// format `%Y-%m-%d`: year, month and day in that order.
pub proof fn lemma_parsed_day_fields(input: Seq<char>)
    ensures
        parsed_date(trimmed(input), "%Y-%m-%d"@) is None ==> parsed_day(input) is None,
        parsed_date(trimmed(input), "%Y-%m-%d"@) matches Some(p) ==> parsed_day(input) == Some(
            (p.0 as int, p.1 as int, p.2 as int),
        ),
{
}

/// The months of a year add up to 366 days in a leap year and 365 otherwise;
/// a year is a leap year when divisible by 4, except centuries not divisible by 400.
pub proof fn lemma_year_length(year: int)
    ensures
        days_in_month(year, 1) + days_in_month(year, 2) + days_in_month(year, 3) + days_in_month(year, 4)
            + days_in_month(year, 5) + days_in_month(year, 6) + days_in_month(year, 7)
            + days_in_month(year, 8) + days_in_month(year, 9) + days_in_month(year, 10)
            + days_in_month(year, 11) + days_in_month(year, 12) == (if is_leap_year(year) {
            366int
        } else {
            365int
        }),
        is_leap_year(year) <==> (year % 4 == 0 && !(year % 100 == 0 && year % 400 != 0)),
        days_in_month(year, 2) == 29 <==> is_leap_year(year),
{
}

/// Dates are ordered by year, then month, then day.
pub proof fn lemma_date_before_meaning(a: (int, int, int), b: (int, int, int))
    ensures
        date_before(a, b) ==> a.0 <= b.0,
        date_before(a, b) && a.0 == b.0 ==> a.1 <= b.1,
        date_before(a, b) && a.0 == b.0 && a.1 == b.1 ==> a.2 < b.2,
        a.0 < b.0 ==> date_before(a, b),
        a.0 == b.0 && a.1 < b.1 ==> date_before(a, b),
{
}

/// The `YYYY-MM-DD` text of a date in years 0 to 9999 has ten characters, with
/// dashes after the year and after the month, and the month's and day's digits
/// in between.
pub proof fn lemma_iso_date_text_shape(date: (int, int, int))
    requires
        0 <= date.0 <= 9999,
        1 <= date.1 <= 12,
        1 <= date.2 <= 31,
    ensures
        iso_date_text(date).len() == 10,
        iso_date_text(date)[4] == '-',
        iso_date_text(date)[7] == '-',
        iso_date_text(date)[5] == digit_char(date.1 / 10),
        iso_date_text(date)[6] == digit_char(date.1 % 10),
        iso_date_text(date)[8] == digit_char(date.2 / 10),
        iso_date_text(date)[9] == digit_char(date.2 % 10),
{
    lemma_digits_len(date.0 as nat);
    lemma_two_digits(date.1 as nat);
    lemma_two_digits(date.2 as nat);
}

proof fn lemma_digits_len(n: nat)
    requires
        n <= 9999,
    ensures
        1 <= decimal_digits(n).len() <= 4,
        zero_pad(decimal_digits(n), 4).len() == 4,
    decreases n,
{
    lemma_digits_bound(n);
}

proof fn lemma_digits_bound(n: nat)
    ensures
        decimal_digits(n).len() >= 1,
        n < 10 ==> decimal_digits(n).len() == 1,
        n < 100 ==> decimal_digits(n).len() <= 2,
        n < 1000 ==> decimal_digits(n).len() <= 3,
        n < 10000 ==> decimal_digits(n).len() <= 4,
    decreases n,
{
    if n >= 10 {
        lemma_digits_bound(n / 10);
    }
}

proof fn lemma_two_digits(n: nat)
    requires
        1 <= n <= 31,
    ensures
        zero_pad(decimal_digits(n), 2).len() == 2,
        zero_pad(decimal_digits(n), 2)[0] == digit_char((n / 10) as int),
        zero_pad(decimal_digits(n), 2)[1] == digit_char((n % 10) as int),
{
    if n >= 10 {
        assert(decimal_digits(n / 10) == seq![digit_char((n / 10) as int)]);
    }
}

/// A valid date is not the first date exactly when its previous date is valid too.
pub proof fn lemma_previous_date_valid(date: (int, int, int))
    requires
        is_valid_date(date.0, date.1, date.2),
        date != first_date(),
    ensures
        is_valid_date(previous_date(date).0, previous_date(date).1, previous_date(date).2),
        date_before(previous_date(date), date),
{
}

/// No valid date lies strictly between a date and its previous date.
pub proof fn lemma_previous_date_adjacent(date: (int, int, int), other: (int, int, int))
    requires
        is_valid_date(date.0, date.1, date.2),
        is_valid_date(other.0, other.1, other.2),
        date != first_date(),
        date_before(other, date),
    ensures
        other == previous_date(date) || date_before(other, previous_date(date)),
{
}

/// `date_before` is a strict total order.
pub proof fn lemma_date_order(a: (int, int, int), b: (int, int, int), c: (int, int, int))
    ensures
        !date_before(a, a),
        a == b || date_before(a, b) || date_before(b, a),
        !(date_before(a, b) && date_before(b, a)),
        date_before(a, b) && date_before(b, c) ==> date_before(a, c),
{
}

impl CalendarDate {
    #[verifier::type_invariant]
    spec fn well_formed(self) -> bool {
        is_valid_date(self.year as int, self.month as int, self.day as int)
    }

    fn leap(year: i32) -> (res: bool)
        requires
            MIN_YEAR <= year <= MAX_YEAR,
        ensures
            res == is_leap_year(year as int),
    {
        // Shift by a multiple of 400 so the remainders are taken of a positive number.
        let shifted = (year + 400000) as u32;
        assert(is_leap_year(year as int) == is_leap_year(shifted as int)) by {
            assert(shifted as int == year as int + 400000);
        }
        shifted % 4 == 0 && (shifted % 100 != 0 || shifted % 400 == 0)
    }

    /// The date with these fields, or `None` where it is not a valid,
    /// representable date.
    pub fn from_ymd(year: i32, month: u32, day: u32) -> (res: Option<CalendarDate>)
        ensures
            res is Some <==> is_valid_date(year as int, month as int, day as int),
            res matches Some(d) ==> d@ == (year as int, month as int, day as int),
    {
        if year < MIN_YEAR || year > MAX_YEAR || month < 1 || month > 12 || day < 1 {
            return None;
        }
        let last: u32 = if month == 2 {
            if Self::leap(year) {
                29
            } else {
                28
            }
        } else if month == 4 || month == 6 || month == 9 || month == 11 {
            30
        } else {
            31
        };
        if day > last {
            return None;
        }
        Some(CalendarDate { year, month, day })
    }

    pub fn year(&self) -> (res: i32)
        ensures
            res as int == self@.0,
    {
        self.year
    }

    pub fn month(&self) -> (res: u32)
        ensures
            res as int == self@.1,
    {
        self.month
    }

    pub fn day(&self) -> (res: u32)
        ensures
            res as int == self@.2,
    {
        self.day
    }

    /// Whether this date comes strictly before `other`.
    pub fn is_before(&self, other: &CalendarDate) -> (res: bool)
        ensures
            res == date_before(self@, other@),
            is_valid_date(self@.0, self@.1, self@.2),
            is_valid_date(other@.0, other@.1, other@.2),
    {
        proof {
            use_type_invariant(self);
            use_type_invariant(other);
        }
        self.year < other.year || (self.year == other.year && (self.month < other.month || (
        self.month == other.month && self.day < other.day)))
    }

    /// The previous calendar date, or `None` for the first representable date
    /// (as chrono's `pred_opt`).
    pub fn previous_day(&self) -> (res: Option<CalendarDate>)
        ensures
            self@ == first_date() ==> res is None,
            self@ != first_date() ==> (res matches Some(p) && p@ == previous_date(self@)),
    {
        proof {
            use_type_invariant(self);
        }
        match chrono_pred_opt(self.year, self.month, self.day) {
            Some(p) => {
                proof {
                    lemma_previous_date_valid(self@);
                }
                Some(CalendarDate { year: p.0, month: p.1, day: p.2 })
            },
            None => None,
        }
    }

    /// The `YYYY-MM-DD` text of this date (chrono's `%Y-%m-%d`).
    pub fn format_ymd(&self) -> (res: String)
        ensures
            res@ == iso_date_text(self@),
    {
        proof {
            use_type_invariant(self);
        }
        chrono_format_date(self.year, self.month, self.day, "%Y-%m-%d")
    }
}

/// Parses a `YYYY-MM-DD` date text, ignoring leading and trailing white space.
pub fn parse_date(input: &str) -> (res: Result<CalendarDate, String>)
    ensures
        parsed_day(input@) matches Some(p) ==> (res matches Ok(d) && d@ == p),
        parsed_day(input@) is None ==> (res matches Err(e) && e@ == invalid_date_message(input@)),
{
    match chrono_parse_date(trim_text(input), "%Y-%m-%d") {
        Some(p) => Ok(CalendarDate { year: p.0, month: p.1, day: p.2 }),
        None => Err(join3("Invalid date '", input, "'. Use YYYY-MM-DD.")),
    }
}

} // verus!
