use vstd::prelude::*;

verus! {

/// The first year a calendar date can hold here.
pub const MIN_YEAR: i32 = -262143;

/// The last year a calendar date can hold here.
pub const MAX_YEAR: i32 = 262142;

pub open spec fn year_in_range(year: int) -> bool {
    MIN_YEAR <= year <= MAX_YEAR
}

/// Gregorian leap years, counted proleptically.
pub open spec fn is_leap_year(year: int) -> bool {
    (year % 4 == 0 && year % 100 != 0) || year % 400 == 0
}

/// The number of days of `month` (1 to 12) in `year`.
pub open spec fn days_in_month(year: int, month: int) -> int {
    if month == 2 {
        if is_leap_year(year) {
            29
        } else {
            28
        }
    } else if month == 4 || month == 6 || month == 9 || month == 11 {
        30
    } else {
        31
    }
}

/// The number of days from 1970-01-01 to the given proleptic Gregorian date.
pub open spec fn days_from_civil(year: int, month: int, day: int) -> int {
    let y = if month <= 2 {
        year - 1
    } else {
        year
    };
    let era = y / 400;
    let yoe = y - era * 400;
    let mp = if month > 2 {
        month - 3
    } else {
        month + 9
    };
    let doy = (153 * mp + 2) / 5 + day - 1;
    let doe = yoe * 365 + yoe / 4 - yoe / 100 + doy;
    era * 146097 + doe - 719468
}

/// The weekday of a date, counted from Monday (0) to Sunday (6); the epoch
/// day 1970-01-01 was a Thursday.
pub open spec fn weekday_from_monday(year: int, month: int, day: int) -> int {
    (days_from_civil(year, month, day) + 3) % 7
}

/// Relies on chrono's `NaiveDate::from_ymd_opt` (no date for a month outside
/// 1 to 12 or a year outside its range) and `Datelike::num_days_in_month`.
#[verifier::external_body]
fn chrono_days_in_month(year: i32, month: u32) -> (r: Option<u32>)
    ensures
        r is Some <==> (1 <= month <= 12 && year_in_range(year as int)),
        r matches Some(n) ==> n == days_in_month(year as int, month as int),
{
    match chrono::NaiveDate::from_ymd_opt(year, month, 1) {
        Some(d) => Some(chrono::Datelike::num_days_in_month(&d) as u32),
        None => None,
    }
}

/// Relies on chrono's `NaiveDate::from_ymd_opt`, `Datelike::weekday` and
/// `Weekday::num_days_from_monday`: the weekday of the first of the month,
/// Monday being 0.
#[verifier::external_body]
fn chrono_first_weekday(year: i32, month: u32) -> (r: Option<u32>)
    ensures
        r is Some <==> (1 <= month <= 12 && year_in_range(year as int)),
        r matches Some(w) ==> w < 7 && w == weekday_from_monday(year as int, month as int, 1),
{
    match chrono::NaiveDate::from_ymd_opt(year, month, 1) {
        Some(d) => Some(chrono::Datelike::weekday(&d).num_days_from_monday()),
        None => None,
    }
}

/// Relies on chrono's `Local::now` with `Datelike::year` and
/// `Datelike::month`: the year and month (1 to 12) of the local date.
#[verifier::external_body]
pub(crate) fn local_year_month() -> (r: (i32, u32))
    ensures
        1 <= r.1 <= 12,
        year_in_range(r.0 as int),
{
    let now = chrono::Local::now();
    (chrono::Datelike::year(&now), chrono::Datelike::month(&now))
}

/// The weekday of the first day of `month` in `year` (Monday 0 to Sunday
/// 6) and the number of days of that month.
pub fn month_info(year: i32, month: u32) -> (r: (i32, i32))
    requires
        1 <= month <= 12,
        year_in_range(year as int),
    ensures
        0 <= r.0 < 7,
        r.0 == weekday_from_monday(year as int, month as int, 1),
        r.1 == days_in_month(year as int, month as int),
        28 <= r.1 <= 31,
{
    let first = chrono_first_weekday(year, month);
    let days = chrono_days_in_month(year, month);
    match (first, days) {
        (Some(w), Some(n)) => (w as i32, n as i32),
        _ => (0, 28),
    }
}

} // verus!
