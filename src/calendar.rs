//! A proleptic Gregorian calendar date held as plain integers.
use vstd::prelude::*;

verus! {

/// Seconds in one calendar day.
pub const SECONDS_PER_DAY: u64 = 86400;

pub open spec fn is_leap_year(y: int) -> bool {
    (y % 4 == 0 && y % 100 != 0) || y % 400 == 0
}

/// Number of days in month `m` (1..=12) of year `y`.
pub open spec fn month_length(y: int, m: int) -> int {
    if m == 2 {
        if is_leap_year(y) { 29 } else { 28 }
    } else if m == 4 || m == 6 || m == 9 || m == 11 {
        30
    } else {
        31
    }
}

pub open spec fn year_length(y: int) -> int {
    if is_leap_year(y) { 366 } else { 365 }
}

/// Days from 1970-01-01 to January 1st of year `y` (for `y >= 1970`).
pub open spec fn days_before_year(y: int) -> int
    decreases y - 1970,
{
    if y <= 1970 { 0 } else { days_before_year(y - 1) + year_length(y - 1) }
}

/// Days from January 1st of year `y` to the first day of month `m`.
pub open spec fn days_before_month(y: int, m: int) -> int
    decreases m,
{
    if m <= 1 { 0 } else { days_before_month(y, m - 1) + month_length(y, m - 1) }
}

/// A date in the Gregorian calendar: `year`, `month` in 1..=12, `day` in 1..=31.
#[derive(Clone, Copy, Debug, PartialEq, Eq, Structural)]
pub struct CalendarDate {
    pub year: i64,
    pub month: u32,
    pub day: u32,
}

impl CalendarDate {
    /// The month and the day name a real day of the calendar.
    pub open spec fn wf(self) -> bool {
        1 <= self.month <= 12 && 1 <= self.day <= month_length(self.year as int, self.month as int)
    }

    /// Days since 1970-01-01 (for dates from 1970 on).
    pub open spec fn epoch_day(self) -> int {
        days_before_year(self.year as int) + days_before_month(self.year as int, self.month as int)
            + self.day - 1
    }

    /// The first day of the month that follows, rolling December into January.
    pub open spec fn next_month_start(self) -> CalendarDate {
        if self.month == 12 {
            CalendarDate { year: (self.year + 1) as i64, month: 1, day: 1 }
        } else {
            CalendarDate { year: self.year, month: (self.month + 1) as u32, day: 1 }
        }
    }

    pub open spec fn month_start(self) -> CalendarDate {
        CalendarDate { year: self.year, month: self.month, day: 1 }
    }

    /// Builds a date from its parts; `None` where the parts name no day of the calendar.
    pub fn new(year: i64, month: u32, day: u32) -> (r: Option<CalendarDate>)
        ensures
            r == (if 1 <= month <= 12 && 1 <= day <= month_length(year as int, month as int) {
                Some(CalendarDate { year, month, day })
            } else {
                None
            }),
    {
        if 1 <= month && month <= 12 && 1 <= day && (day as u64) <= days_in_month(year, month) {
            Some(CalendarDate { year, month, day })
        } else {
            None
        }
    }

    /// Number of days in the month that holds this date.
    pub fn days_in_month(&self) -> (r: u64)
        requires
            self.wf(),
        ensures
            r == month_length(self.year as int, self.month as int),
            28 <= r <= 31,
    {
        days_in_month(self.year, self.month)
    }

    /// The UTC date of an instant given as whole seconds since 1970-01-01T00:00:00Z.
    pub fn from_unix_seconds(secs: u64) -> (r: CalendarDate)
        ensures
            r.wf(),
            r.year >= 1970,
            r.epoch_day() == secs as int / SECONDS_PER_DAY as int,
    {
        let days: u64 = secs / SECONDS_PER_DAY;
        let mut year: i64 = 1970;
        let mut rem: u64 = days;
        while rem >= year_days(year)
            invariant
                1970 <= year,
                (year - 1970) * 365 <= days - rem,
                rem <= days,
                days <= u64::MAX / 86400,
                days_before_year(year as int) + rem == days,
            decreases rem,
        {
            rem = rem - year_days(year);
            year = year + 1;
        }
        let mut month: u32 = 1;
        proof { lemma_months_fill_year(year as int); }
        while rem >= days_in_month(year, month)
            invariant
                1 <= month <= 12,
                rem + days_before_month(year as int, month as int) < year_length(year as int),
                days_before_year(year as int) + days_before_month(year as int, month as int) + rem
                    == days,
                days_before_month(year as int, 13) == year_length(year as int),
            decreases 12 - month,
        {
            rem = rem - days_in_month(year, month);
            month = month + 1;
        }
        CalendarDate { year, month, day: (rem + 1) as u32 }
    }
}

/// Days in month `month` of year `year`.
pub fn days_in_month(year: i64, month: u32) -> (r: u64)
    ensures
        r == month_length(year as int, month as int),
{
    if month == 2 {
        if is_leap(year) { 29 } else { 28 }
    } else if month == 4 || month == 6 || month == 9 || month == 11 {
        30
    } else {
        31
    }
}

/// Whether `year` is a leap year of the Gregorian calendar.
pub fn is_leap(year: i64) -> (r: bool)
    ensures
        r == is_leap_year(year as int),
{
    (year % 4 == 0 && year % 100 != 0) || year % 400 == 0
}

fn year_days(year: i64) -> (r: u64)
    ensures
        r == year_length(year as int),
{
    if is_leap(year) { 366 } else { 365 }
}

/// The twelve months of a year add up to the year's length.
pub proof fn lemma_months_fill_year(y: int)
    ensures
        days_before_month(y, 13) == year_length(y),
{
    reveal_with_fuel(days_before_month, 13);
}

/// The day count from the first day of a month to the first day of the next one is
/// the length of that month, December included.
pub proof fn lemma_month_span(d: CalendarDate)
    requires
        d.wf(),
        d.year >= 1970,
        d.year < i64::MAX,
    ensures
        d.next_month_start().epoch_day() - d.month_start().epoch_day()
            == month_length(d.year as int, d.month as int),
{
    if d.month == 12 {
        lemma_months_fill_year(d.year as int);
        assert(days_before_year(d.year + 1) == days_before_year(d.year as int) + year_length(
            d.year as int,
        ));
    }
}

} // verus!
