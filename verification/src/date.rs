//! Calendar dates as plain values, with the date arithmetic and formatting
//! of the `chrono` crate.
use crate::text::{decimal, digit_text};
use chrono::Datelike;
use vstd::prelude::*;

verus! {

/// Whether a year of the proleptic Gregorian calendar is a leap year.
pub open spec fn is_leap_year(y: int) -> bool {
    (y % 4 == 0 && y % 100 != 0) || y % 400 == 0
}

/// The number of days of a month (1 to 12) of a year.
pub open spec fn days_in_month(y: int, m: int) -> int {
    if m == 2 {
        if is_leap_year(y) { 29 } else { 28 }
    } else if m == 4 || m == 6 || m == 9 || m == 11 {
        30
    } else {
        31
    }
}

/// The first year that `chrono` represents (`NaiveDate::MIN` is January 1,
/// 262144 BCE).
pub open spec fn min_year() -> int {
    -262143
}

/// The last year that `chrono` represents (`NaiveDate::MAX` is December 31,
/// 262142 CE).
pub open spec fn max_year() -> int {
    262142
}

/// Whether year, month and day name a day of the proleptic Gregorian
/// calendar within the range of `chrono`.
pub open spec fn is_calendar_date(y: int, m: int, d: int) -> bool {
    &&& min_year() <= y <= max_year()
    &&& 1 <= m <= 12
    &&& 1 <= d <= days_in_month(y, m)
}

/// The date one calendar month after a date: the same day of the next
/// month, or the last day of that month where it is shorter; `None` past
/// the last year.
pub open spec fn month_after(y: int, m: int, d: int) -> Option<(int, int, int)> {
    let ny = if m == 12 { y + 1 } else { y };
    let nm = if m == 12 { 1 } else { m + 1 };
    let nd = if d <= days_in_month(ny, nm) { d } else { days_in_month(ny, nm) };
    if ny <= max_year() { Some((ny, nm, nd)) } else { None }
}

/// The day after a date; `None` after the last day of the last year.
pub open spec fn day_after(y: int, m: int, d: int) -> Option<(int, int, int)> {
    if d < days_in_month(y, m) {
        Some((y, m, d + 1))
    } else if m < 12 {
        Some((y, m + 1, 1))
    } else if y + 1 <= max_year() {
        Some((y + 1, 1, 1))
    } else {
        None
    }
}

/// The two last decimal digits of a number.
pub open spec fn two_digits(n: int) -> Seq<char> {
    digit_text(((n / 10) % 10) as nat) + digit_text((n % 10) as nat)
}

/// The four last decimal digits of a number.
pub open spec fn four_digits(n: int) -> Seq<char> {
    digit_text(((n / 1000) % 10) as nat) + digit_text(((n / 100) % 10) as nat) + two_digits(n)
}

/// A year as `%Y` writes it: four digits, zero-padded, for the years 0 to
/// 9999; any other year with its sign and at least four digits.
pub open spec fn year_text(y: int) -> Seq<char> {
    if 0 <= y <= 9999 {
        four_digits(y)
    } else if y > 9999 {
        "+"@ + decimal(y as nat)
    } else if -y <= 9999 {
        "-"@ + four_digits(-y)
    } else {
        "-"@ + decimal((-y) as nat)
    }
}

/// A date written as `%Y-%m-%d`.
pub open spec fn ymd_text(y: int, m: int, d: int) -> Seq<char> {
    year_text(y) + "-"@ + two_digits(m) + "-"@ + two_digits(d)
}

/// A calendar date within the range of `chrono`.
#[derive(Debug, Clone, Copy, PartialEq, Eq, Structural)]
pub struct Date {
    year: i32,
    month: u32,
    day: u32,
}

/// Calls `chrono::NaiveDate::from_ymd_opt` and tells whether it gives a date.
///
/// Trusted: `from_ymd_opt` gives `None` exactly where the day does not
/// exist, the month or day is invalid, or the year is out of the range
/// between `NaiveDate::MIN` and `NaiveDate::MAX`, as its documentation says.
#[verifier::external_body]
fn ymd_is_valid(year: i32, month: u32, day: u32) -> (r: bool)
    ensures
        r == is_calendar_date(year as int, month as int, day as int),
{
    chrono::NaiveDate::from_ymd_opt(year, month, day).is_some()
}

impl Date {
    /// Validity: the fields form a date of the calendar within the range of `chrono`.
    #[verifier::type_invariant]
    spec fn valid(self) -> bool {
        is_calendar_date(self.year as int, self.month as int, self.day as int)
    }

    pub closed spec fn spec_year(self) -> i32 {
        self.year
    }

    pub closed spec fn spec_month(self) -> u32 {
        self.month
    }

    pub closed spec fn spec_day(self) -> u32 {
        self.day
    }

    /// The date with the given year, month and day, if they form one.
    pub fn from_ymd(year: i32, month: u32, day: u32) -> (r: Option<Date>)
        ensures
            r is Some <==> is_calendar_date(year as int, month as int, day as int),
            r matches Some(d) ==> d.spec_year() == year && d.spec_month() == month && d.spec_day() == day,
    {
        if ymd_is_valid(year, month, day) {
            Some(Date { year, month, day })
        } else {
            None
        }
    }

    pub fn year(&self) -> (r: i32)
        ensures
            r == self.spec_year(),
    {
        self.year
    }

    pub fn month(&self) -> (r: u32)
        ensures
            r == self.spec_month(),
    {
        self.month
    }

    pub fn day(&self) -> (r: u32)
        ensures
            r == self.spec_day(),
    {
        self.day
    }
}

/// Whether a date has the given year, month and day.
pub open spec fn has_ymd(d: Date, t: (int, int, int)) -> bool {
    d.spec_year() == t.0 && d.spec_month() == t.1 && d.spec_day() == t.2
}

/// Calls `chrono::NaiveDate::checked_add_months` with one month.
///
/// Trusted: the result is the one the documentation gives, the same day of
/// the next month or the last day of that month where the day does not
/// exist in it, and `None` where the result would be out of range.
#[verifier::external_body]
fn add_one_month_ymd(year: i32, month: u32, day: u32) -> (r: Option<(i32, u32, u32)>)
    requires
        is_calendar_date(year as int, month as int, day as int),
    ensures
        match month_after(year as int, month as int, day as int) {
            Some(t) => r matches Some(x) && x.0 == t.0 && x.1 == t.1 && x.2 == t.2,
            None => r is None,
        },
{
    match chrono::NaiveDate::from_ymd_opt(year, month, day) {
        Some(d) => match d.checked_add_months(chrono::Months::new(1)) {
            Some(x) => Some((x.year(), x.month(), x.day())),
            None => None,
        },
        None => None,
    }
}

/// Calls `chrono::NaiveDate::checked_add_days` with one day.
///
/// Trusted: the result is the next day of the calendar, and `None` where it
/// would be out of range, as the documentation says.
#[verifier::external_body]
fn add_one_day_ymd(year: i32, month: u32, day: u32) -> (r: Option<(i32, u32, u32)>)
    requires
        is_calendar_date(year as int, month as int, day as int),
    ensures
        match day_after(year as int, month as int, day as int) {
            Some(t) => r matches Some(x) && x.0 == t.0 && x.1 == t.1 && x.2 == t.2,
            None => r is None,
        },
{
    match chrono::NaiveDate::from_ymd_opt(year, month, day) {
        Some(d) => match d.checked_add_days(chrono::Days::new(1)) {
            Some(x) => Some((x.year(), x.month(), x.day())),
            None => None,
        },
        None => None,
    }
}

/// Calls `chrono::NaiveDate::format` with `%Y-%m-%d`.
///
/// Trusted: the result is what the `chrono` source writes (`write_year`,
/// `write_two` in `format/formatting.rs` for `%Y`, `%m`, `%d`, zero-padded):
/// the years 0 to 9999 as four digits, any other year through
/// `{:+05}` (its sign and at least four digits), and month and day as two
/// digits.
#[verifier::external_body]
fn format_ymd(year: i32, month: u32, day: u32) -> (r: String)
    requires
        is_calendar_date(year as int, month as int, day as int),
    ensures
        r@ == ymd_text(year as int, month as int, day as int),
{
    match chrono::NaiveDate::from_ymd_opt(year, month, day) {
        Some(d) => d.format("%Y-%m-%d").to_string(),
        None => String::new(),
    }
}

impl Date {
    /// The date one calendar month later (the last day of the next month
    /// where it is shorter), if it is in range.
    pub fn checked_add_one_month(&self) -> (r: Option<Date>)
        ensures
            match month_after(self.spec_year() as int, self.spec_month() as int, self.spec_day() as int) {
                Some(t) => r matches Some(d) && has_ymd(d, t),
                None => r is None,
            },
    {
        proof {
            use_type_invariant(self);
        }
        match add_one_month_ymd(self.year, self.month, self.day) {
            Some(t) => {
                proof {
                    lemma_month_after_is_calendar_date(self.year as int, self.month as int, self.day as int);
                }
                Some(Date { year: t.0, month: t.1, day: t.2 })
            },
            None => None,
        }
    }

    /// The next day, if it is in range.
    pub fn checked_add_one_day(&self) -> (r: Option<Date>)
        ensures
            match day_after(self.spec_year() as int, self.spec_month() as int, self.spec_day() as int) {
                Some(t) => r matches Some(d) && has_ymd(d, t),
                None => r is None,
            },
    {
        proof {
            use_type_invariant(self);
        }
        match add_one_day_ymd(self.year, self.month, self.day) {
            Some(t) => {
                proof {
                    lemma_day_after_is_calendar_date(self.year as int, self.month as int, self.day as int);
                }
                Some(Date { year: t.0, month: t.1, day: t.2 })
            },
            None => None,
        }
    }

    /// The date written as `YYYY-MM-DD` (with a sign and more digits for a
    /// year outside 0 to 9999).
    pub fn to_ymd_string(&self) -> (r: String)
        ensures
            r@ == ymd_text(self.spec_year() as int, self.spec_month() as int, self.spec_day() as int),
    {
        proof {
            use_type_invariant(self);
        }
        format_ymd(self.year, self.month, self.day)
    }
}

/// The month after a date of the calendar is a date of the calendar.
proof fn lemma_month_after_is_calendar_date(y: int, m: int, d: int)
    requires
        is_calendar_date(y, m, d),
    ensures
        month_after(y, m, d) matches Some(t) ==> is_calendar_date(t.0, t.1, t.2),
{
}

/// The day after a date of the calendar is a date of the calendar.
proof fn lemma_day_after_is_calendar_date(y: int, m: int, d: int)
    requires
        is_calendar_date(y, m, d),
    ensures
        day_after(y, m, d) matches Some(t) ==> is_calendar_date(t.0, t.1, t.2),
{
}

} // verus!
