use vstd::prelude::*;

verus! {

/// A calendar date of the proleptic Gregorian calendar.
#[derive(Clone, Copy, Debug, PartialEq, Eq, Structural)]
pub struct Date {
    pub year: i32,
    pub month: u32,
    pub day: u32,
}

/// Gregorian leap-year rule.
pub open spec fn is_leap_year(year: int) -> bool {
    year % 4 == 0 && (year % 100 != 0 || year % 400 == 0)
}

/// Number of days of `month` (1-based) in `year`.
pub open spec fn month_length(year: int, month: int) -> int {
    if month == 2 {
        if is_leap_year(year) { 29 } else { 28 }
    } else if month == 4 || month == 6 || month == 9 || month == 11 {
        30
    } else {
        31
    }
}

/// Days in the months of `year` before `month`.
pub open spec fn days_before_month(year: int, month: int) -> int
    decreases month,
{
    if month <= 1 {
        0
    } else {
        days_before_month(year, month - 1) + month_length(year, month - 1)
    }
}

/// Days in the years before `year`, counted from 1 January of year 1.
pub open spec fn days_before_year(year: int) -> int {
    365 * (year - 1) + (year - 1) / 4 - (year - 1) / 100 + (year - 1) / 400
}

/// Consecutive numbering of the days; 1 January of year 1 is day 0.
pub open spec fn day_number(d: Date) -> int {
    days_before_year(d.year as int) + days_before_month(d.year as int, d.month as int) + d.day - 1
}

impl Date {
    /// The date names an existing day of the calendar.
    pub open spec fn valid(self) -> bool {
        1 <= self.month <= 12 && 1 <= self.day <= month_length(self.year as int, self.month as int)
    }

    /// The date of the given year, month and day, if it exists.
    pub fn new(year: i32, month: u32, day: u32) -> (r: Option<Date>)
        ensures
            r is Some <==> (Date { year, month, day }).valid(),
            r matches Some(d) ==> d == (Date { year, month, day }),
    {
        if 1 <= month && month <= 12 && 1 <= day && day <= days_in_month(year, month) {
            Some(Date { year, month, day })
        } else {
            None
        }
    }
}

/// Earliest year of the dates that date arithmetic supports.
pub const MIN_YEAR: i32 = -262143;

/// Latest year of the dates that date arithmetic supports.
pub const MAX_YEAR: i32 = 262142;

/// Relies on chrono's `NaiveDate::from_ymd_opt` and `NaiveDate::signed_duration_since`:
/// the number of days from `b` to `a` in the proleptic Gregorian calendar.
#[verifier::external_body]
pub(crate) fn days_between(a: Date, b: Date) -> (r: i64)
    requires
        a.valid(),
        b.valid(),
        MIN_YEAR <= a.year <= MAX_YEAR,
        MIN_YEAR <= b.year <= MAX_YEAR,
    ensures
        r == day_number(a) - day_number(b),
{
    let from = chrono::NaiveDate::from_ymd_opt(a.year, a.month, a.day);
    let to = chrono::NaiveDate::from_ymd_opt(b.year, b.month, b.day);
    match (from, to) {
        (Some(x), Some(y)) => x.signed_duration_since(y).num_days(),
        _ => 0,
    }
}

/// The date `days` days after `d` (before it when negative), as chrono computes it;
/// `None` outside chrono's range of dates.
pub uninterp spec fn shifted_date(d: Date, days: i64) -> Option<Date>;

/// Relies on chrono's `NaiveDate::from_ymd_opt` and `NaiveDate::checked_add_signed`:
/// the proleptic Gregorian date that lies `days` days away, or `None` when the date or
/// the result is out of chrono's range (years -262143 to 262142).
#[verifier::external_body]
pub(crate) fn shift_days(d: Date, days: i64) -> (r: Option<Date>)
    requires
        -1_000_000 <= days <= 1_000_000,
    ensures
        r == shifted_date(d, days),
        r matches Some(e) ==> e.valid() && day_number(e) == day_number(d) + days,
        d.valid() && -100_000 <= d.year <= 100_000 ==> r is Some,
{
    let start = match chrono::NaiveDate::from_ymd_opt(d.year, d.month, d.day) {
        Some(n) => n,
        None => return None,
    };
    match start.checked_add_signed(chrono::TimeDelta::days(days)) {
        Some(n) => Some(
            Date {
                year: chrono::Datelike::year(&n),
                month: chrono::Datelike::month(&n),
                day: chrono::Datelike::day(&n),
            },
        ),
        None => None,
    }
}

/// Number of days in the given month; months other than 2, 4, 6, 9 and 11 have 31.
#[verifier::rlimit(30)]
pub fn days_in_month(year: i32, month: u32) -> (r: u32)
    ensures
        r == month_length(year as int, month as int),
{
    if month == 2 {
        if year % 4 == 0 && (year % 100 != 0 || year % 400 == 0) {
            29
        } else {
            28
        }
    } else if month == 4 || month == 6 || month == 9 || month == 11 {
        30
    } else {
        31
    }
}

} // verus!
