//! Calendar dates at day precision, and the month-advance rule used by the
//! scheduled-transfer batch: add one month and clamp the day of month to the
//! length of the target month.

use vstd::prelude::*;

verus! {

/// The largest year a date may carry. Keeping years bounded lets the
/// month-advance arithmetic stay within the machine integers.
pub const MAX_YEAR: u32 = 9999;

/// A calendar date with day precision. Scheduled transfers compare and
/// advance dates at this granularity; time of day never enters the ledger.
#[derive(Clone, Copy, PartialEq, Eq, Structural, Debug)]
pub struct Date {
    pub year: u32,
    pub month: u32,
    pub day: u32,
}

/// Gregorian leap-year rule.
pub open spec fn spec_is_leap_year(y: int) -> bool {
    (y % 4 == 0 && y % 100 != 0) || y % 400 == 0
}

/// The number of days in the given month of the given year.
pub open spec fn spec_days_in_month(y: int, m: int) -> int {
    if m == 2 {
        if spec_is_leap_year(y) {
            29
        } else {
            28
        }
    } else if m == 4 || m == 6 || m == 9 || m == 11 {
        30
    } else {
        31
    }
}

/// A date is valid when its month and day lie in range for its year, and the
/// year stays within the supported bound.
pub open spec fn valid_date(d: Date) -> bool {
    &&& 1 <= d.year <= MAX_YEAR
    &&& 1 <= d.month <= 12
    &&& 1 <= d.day <= spec_days_in_month(d.year as int, d.month as int)
}

/// Whether a date may be advanced by one month without leaving the
/// supported year range.
pub open spec fn can_advance(d: Date) -> bool {
    !(d.year == MAX_YEAR && d.month == 12)
}

/// The date one calendar month later, with the day of month clamped to the
/// length of the target month.
pub open spec fn spec_next_month(d: Date) -> Date {
    let ny = if d.month == 12 {
        (d.year + 1) as u32
    } else {
        d.year
    };
    let nm = if d.month == 12 {
        1u32
    } else {
        (d.month + 1) as u32
    };
    let limit = spec_days_in_month(ny as int, nm as int);
    let nd = if d.day > limit {
        limit as u32
    } else {
        d.day
    };
    Date { year: ny, month: nm, day: nd }
}

pub fn is_leap_year(y: u32) -> (r: bool)
    ensures
        r == spec_is_leap_year(y as int),
{
    (y % 4 == 0 && y % 100 != 0) || y % 400 == 0
}

/// The number of days in the given month of the given year.
pub fn days_in_month(y: u32, m: u32) -> (r: u32)
    ensures
        r == spec_days_in_month(y as int, m as int),
{
    if m == 2 {
        if is_leap_year(y) {
            29
        } else {
            28
        }
    } else if m == 4 || m == 6 || m == 9 || m == 11 {
        30
    } else {
        31
    }
}

/// Decides whether a date is valid.
pub fn validate_date(d: Date) -> (r: bool)
    ensures
        r == valid_date(d),
{
    1 <= d.year && d.year <= MAX_YEAR && 1 <= d.month && d.month <= 12 && 1 <= d.day && d.day
        <= days_in_month(d.year, d.month)
}

/// Advances a date by one calendar month, clamping the day of month to the
/// length of the target month (a transfer scheduled on the 31st rolls to the
/// 28th, 29th or 30th as the target month requires).
pub fn next_month_date(d: Date) -> (r: Date)
    requires
        valid_date(d),
        can_advance(d),
    ensures
        r == spec_next_month(d),
        valid_date(r),
{
    let ny = if d.month == 12 {
        d.year + 1
    } else {
        d.year
    };
    let nm = if d.month == 12 {
        1
    } else {
        d.month + 1
    };
    let limit = days_in_month(ny, nm);
    let nd = if d.day > limit {
        limit
    } else {
        d.day
    };
    Date { year: ny, month: nm, day: nd }
}

} // verus!
