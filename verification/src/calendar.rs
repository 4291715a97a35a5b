use vstd::prelude::*;

verus! {

/// Whether `year` is a leap year of the proleptic Gregorian calendar.
pub open spec fn is_leap_year(year: int) -> bool {
    (year % 4 == 0 && year % 100 != 0) || year % 400 == 0
}

/// The number of days of `month` (1 to 12) in `year`.
pub open spec fn days_in_month(year: int, month: int) -> int {
    if month == 2 {
        if is_leap_year(year) { 29 } else { 28 }
    } else if month == 4 || month == 6 || month == 9 || month == 11 {
        30
    } else {
        31
    }
}

/// Whether month and day name a day of the Gregorian calendar in `year`.
pub open spec fn is_calendar_day(year: int, month: int, day: int) -> bool {
    1 <= month <= 12 && 1 <= day <= days_in_month(year, month)
}

/// The number of days from 1970-01-01 to the given day of the proleptic
/// Gregorian calendar (negative before it), counting years from March so that
/// the leap day falls last.
pub open spec fn days_from_civil(year: int, month: int, day: int) -> int {
    let y = if month <= 2 { year - 1 } else { year };
    let era = y / 400;
    let year_of_era = y - era * 400;
    let month_from_march = if month > 2 { month - 3 } else { month + 9 };
    let day_of_year = (153 * month_from_march + 2) / 5 + day - 1;
    let day_of_era = year_of_era * 365 + year_of_era / 4 - year_of_era / 100 + day_of_year;
    era * 146097 + day_of_era - 719468
}

/// The day of the week of the day `days` after 1970-01-01 (a Thursday),
/// counted from Monday as 0 to Sunday as 6.
pub open spec fn weekday_from_monday(days: int) -> int {
    (days + 3) % 7
}

/// The days of one month are numbered on from its first day.
pub proof fn lemma_days_within_month(year: int, month: int, day: int)
    ensures
        days_from_civil(year, month, day) == days_from_civil(year, month, 1) + day - 1,
{
}

} // verus!
