//! Calendar dates and completed ages.
use vstd::prelude::*;

verus! {

/// Smallest year a date can hold.
pub const MIN_YEAR: i32 = -262143;

/// Largest year a date can hold.
pub const MAX_YEAR: i32 = 262142;

pub open spec fn is_leap_year(y: int) -> bool {
    (y % 4 == 0 && y % 100 != 0) || y % 400 == 0
}

pub open spec fn days_in_month(y: int, m: int) -> int {
    if m == 2 {
        if is_leap_year(y) { 29 } else { 28 }
    } else if m == 4 || m == 6 || m == 9 || m == 11 {
        30
    } else {
        31
    }
}

/// A proleptic Gregorian calendar date in the supported year range.
pub open spec fn is_valid_ymd(y: int, m: int, d: int) -> bool {
    MIN_YEAR <= y <= MAX_YEAR && 1 <= m <= 12 && 1 <= d <= days_in_month(y, m)
}

/// Relies on chrono::NaiveDate::from_ymd_opt: it returns a date exactly when
/// the year is within chrono's range and the month and day name a day of the
/// Gregorian calendar.
#[verifier::external_body]
fn chrono_date_exists(year: i32, month: u32, day: u32) -> (r: bool)
    ensures
        r == is_valid_ymd(year as int, month as int, day as int),
{
    chrono::NaiveDate::from_ymd_opt(year, month, day).is_some()
}

/// A calendar date.
#[derive(Clone, Copy, Debug, PartialEq, Eq)]
pub struct Date {
    pub year: i32,
    pub month: u32,
    pub day: u32,
}

impl Date {
    pub open spec fn wf(&self) -> bool {
        is_valid_ymd(self.year as int, self.month as int, self.day as int)
    }

    /// The date with the given year, month and day, if it exists.
    pub fn from_ymd_opt(year: i32, month: u32, day: u32) -> (r: Option<Date>)
        ensures
            r.is_some() <==> is_valid_ymd(year as int, month as int, day as int),
            r matches Some(d) ==> d.wf() && d.year == year && d.month == month && d.day == day,
    {
        if chrono_date_exists(year, month, day) {
            Some(Date { year, month, day })
        } else {
            None
        }
    }

    pub fn year(&self) -> (r: i32)
        ensures
            r == self.year,
    {
        self.year
    }
}

/// `a` falls strictly before `b`.
pub open spec fn date_before(a: Date, b: Date) -> bool {
    a.year < b.year || (a.year == b.year && (a.month < b.month || (a.month == b.month && a.day
        < b.day)))
}

/// Completed years from `birth` to `today`.
pub open spec fn age_between(birth: Date, today: Date) -> int {
    let before_birthday = today.month < birth.month || (today.month == birth.month && today.day
        < birth.day);
    today.year - birth.year - if before_birthday { 1int } else { 0int }
}

/// Completed months from `birth` to `today`.
pub open spec fn month_age_between(birth: Date, today: Date) -> int {
    (today.year - birth.year) * 12 + (today.month - birth.month) - if today.day < birth.day {
        1int
    } else {
        0int
    }
}

fn is_before(a: &Date, b: &Date) -> (r: bool)
    ensures
        r == date_before(*a, *b),
{
    a.year < b.year || (a.year == b.year && (a.month < b.month || (a.month == b.month && a.day
        < b.day)))
}

/// Age in completed years on `today` of someone born on `birthdate`.
pub fn calculate_age(birthdate: &Date, today: &Date) -> (r: Result<i32, &'static str>)
    requires
        birthdate.wf(),
        today.wf(),
    ensures
        date_before(*today, *birthdate) ==> r == Err::<i32, &'static str>(
            "Input date cannot be less than birthdate.",
        ),
        !date_before(*today, *birthdate) ==> r == Ok::<i32, &'static str>(
            age_between(*birthdate, *today) as i32,
        ),
        r matches Ok(a) ==> a as int == age_between(*birthdate, *today) && a >= 0,
{
    if is_before(today, birthdate) {
        return Err("Input date cannot be less than birthdate.");
    }
    let mut age: i32 = today.year - birthdate.year;
    if today.month < birthdate.month || (today.month == birthdate.month && today.day
        < birthdate.day) {
        age = age - 1;
    }
    Ok(age)
}

/// Age in completed months on `today` of someone born on `birthdate`.
pub fn calculate_month_age(birthdate: &Date, today: &Date) -> (r: Result<i32, &'static str>)
    requires
        birthdate.wf(),
        today.wf(),
    ensures
        date_before(*today, *birthdate) ==> r == Err::<i32, &'static str>(
            "Input date cannot be less than birthdate.",
        ),
        !date_before(*today, *birthdate) ==> r == Ok::<i32, &'static str>(
            month_age_between(*birthdate, *today) as i32,
        ),
        r matches Ok(a) ==> a as int == month_age_between(*birthdate, *today) && a >= 0,
{
    if is_before(today, birthdate) {
        return Err("Input date cannot be less than birthdate.");
    }
    let years: i32 = today.year - birthdate.year;
    let months: i32 = today.month as i32 - birthdate.month as i32;
    let mut total_months: i32 = years * 12 + months;
    if today.day < birthdate.day {
        total_months = total_months - 1;
    }
    Ok(total_months)
}

} // verus!
