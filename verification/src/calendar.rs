use vstd::prelude::*;

use chrono::{Datelike, Months, NaiveDate};

verus! {

/// The calendar date (year, month, day) of a day number, as chrono's
/// `NaiveDate::from_num_days_from_ce_opt` computes it, or `None` where chrono's
/// calendar ends.
pub uninterp spec fn civil_from_day_number(day_number: i32) -> Option<(i32, u32, u32)>;

/// The day number `months` months after `day_number`, as chrono's
/// `NaiveDate::checked_add_months` computes it, or `None` out of chrono's range.
pub uninterp spec fn months_after(day_number: i32, months: u32) -> Option<i32>;

/// Calls chrono's `NaiveDate::from_num_days_from_ce_opt` (day 1 is January 1 of
/// year 1) and reads the year, month and day of the date it returns. chrono
/// documents that a month lies in 1..=12 and a day in 1..=31; which date a day
/// number is, is left to the name `civil_from_day_number`.
#[verifier::external_body]
fn civil_date(day_number: i32) -> (r: Option<(i32, u32, u32)>)
    ensures
        r == civil_from_day_number(day_number),
        r matches Some((_, m, d)) ==> 1 <= m <= 12 && 1 <= d <= 31,
{
    match NaiveDate::from_num_days_from_ce_opt(day_number) {
        Some(date) => Some((date.year(), date.month(), date.day())),
        None => None,
    }
}

/// Whether `later` lies `months` months after `earlier` in the calendar: its month
/// is that many months on, and its day is the same or, in a shorter month, earlier.
pub open spec fn is_months_later(earlier: (i32, u32, u32), later: (i32, u32, u32), months: u32) -> bool {
    &&& later.0 * 12 + later.1 == earlier.0 * 12 + earlier.1 + months
    &&& later.2 <= earlier.2
    &&& earlier.2 <= 28 ==> later.2 == earlier.2
}

/// Calls chrono's `NaiveDate::checked_add_months` on the date of `day_number` and
/// gives the day number of the result. chrono's source returns the date itself for
/// zero months and `None` when the start is not a date; it documents that the result
/// falls in the month `months` months on, on the same day or, when that month is
/// shorter, on its last day, and that a date and its day number convert into each
/// other. Which day numbers lie outside the calendar is left to the name
/// `months_after`.
#[verifier::external_body]
fn add_months(day_number: i32, months: u32) -> (r: Option<i32>)
    ensures
        r == months_after(day_number, months),
        civil_from_day_number(day_number) is None ==> r is None,
        months == 0 && civil_from_day_number(day_number) is Some ==> r == Some(day_number),
        r matches Some(n) ==> civil_from_day_number(day_number) matches Some(start)
            && civil_from_day_number(n) matches Some(end) && is_months_later(start, end, months),
{
    match NaiveDate::from_num_days_from_ce_opt(day_number) {
        Some(date) => match date.checked_add_months(Months::new(months)) {
            Some(later) => Some(later.num_days_from_ce()),
            None => None,
        },
        None => None,
    }
}

/// A day of the game's calendar, by its number in the proleptic Gregorian calendar
/// (January 1 of year 1 is day 1).
#[derive(Clone, Copy, Debug, PartialEq, Eq, Structural)]
pub struct GameDate {
    pub day_number: i32,
}

impl GameDate {
    /// The date with the given day number.
    pub fn from_day_number(day_number: i32) -> (r: GameDate)
        ensures
            r.day_number == day_number,
    {
        GameDate { day_number }
    }

    /// Whether chrono's calendar holds the date.
    pub open spec fn is_valid(self) -> bool {
        civil_from_day_number(self.day_number) is Some
    }

    /// The year, month and day of the date, or `None` outside chrono's calendar.
    pub fn calendar(&self) -> (r: Option<(i32, u32, u32)>)
        ensures
            r == civil_from_day_number(self.day_number),
            r matches Some((_, m, d)) ==> 1 <= m <= 12 && 1 <= d <= 31,
    {
        civil_date(self.day_number)
    }

    /// The date `days` days later, or `None` when it falls outside the calendar.
    pub open spec fn spec_plus_days(self, days: int) -> Option<GameDate> {
        let n = self.day_number + days;
        if i32::MIN <= n <= i32::MAX && civil_from_day_number(n as i32) is Some {
            Some(GameDate { day_number: n as i32 })
        } else {
            None
        }
    }

    /// The date `days` days later, or `None` when it falls outside the calendar.
    pub fn plus_days(&self, days: u32) -> (r: Option<GameDate>)
        ensures
            r == self.spec_plus_days(days as int),
    {
        let n = self.day_number as i64 + days as i64;
        if n > i32::MAX as i64 {
            return None;
        }
        let n = n as i32;
        match civil_date(n) {
            Some(_) => Some(GameDate { day_number: n }),
            None => None,
        }
    }

    /// The next day, as the game clock advances.
    pub fn next_day(&self) -> (r: Option<GameDate>)
        ensures
            r == self.spec_plus_days(1),
    {
        self.plus_days(1)
    }

    /// The date `months` months later (the day is kept, or clamped to the end of a
    /// shorter month), or `None` outside the calendar.
    pub fn plus_months(&self, months: u32) -> (r: Option<GameDate>)
        ensures
            r == match months_after(self.day_number, months) {
                Some(n) => Some(GameDate { day_number: n }),
                None => None,
            },
            months == 0 && self.is_valid() ==> r == Some(*self),
            r matches Some(later) ==> civil_from_day_number(self.day_number) matches Some(start)
                && civil_from_day_number(later.day_number) matches Some(end) && is_months_later(
                start,
                end,
                months,
            ),
    {
        match add_months(self.day_number, months) {
            Some(n) => Some(GameDate { day_number: n }),
            None => None,
        }
    }

    /// Whether the date comes strictly before `other`.
    pub fn is_before(&self, other: &GameDate) -> (r: bool)
        ensures
            r == (self.day_number < other.day_number),
    {
        self.day_number < other.day_number
    }
}

/// Dividends are paid in the first month of each quarter.
pub open spec fn spec_is_dividend_month(month: u32) -> bool {
    month % 3 == 1
}

/// Coupons are paid in the first month of each half year.
pub open spec fn spec_is_coupon_month(month: u32) -> bool {
    month % 6 == 1
}

/// Whether dividends are paid in `month` (January, April, July, October).
pub fn is_dividend_month(month: u32) -> (r: bool)
    ensures
        r == spec_is_dividend_month(month),
{
    month % 3 == 1
}

/// Whether bond coupons are paid in `month` (January and July).
pub fn is_coupon_month(month: u32) -> (r: bool)
    ensures
        r == spec_is_coupon_month(month),
{
    month % 6 == 1
}

/// Whether the inflow expected in `month` counts dividends and coupons: each is shown
/// one month before it is paid, so dividends in March, June, September and December
/// and coupons in June and December.
pub fn inflow_forecast(month: u32) -> (r: (bool, bool))
    ensures
        r == (month % 3 == 0, month % 6 == 0),
        1 <= month <= 12 ==> r == (
            spec_is_dividend_month((month % 12 + 1) as u32),
            spec_is_coupon_month((month % 12 + 1) as u32),
        ),
{
    (month % 3 == 0, month % 6 == 0)
}

/// The periodic operations that fall on a day of the game.
#[derive(Clone, Copy, Debug, PartialEq, Eq, Structural)]
pub struct DaySchedule {
    /// First day of a month: trading volume is reset, the central bank moves the
    /// interest rate, interest on cash, loan installments and storage costs are paid.
    pub month_start: bool,
    /// First day of a quarter: stock dividends are paid.
    pub quarter_start: bool,
    /// First day of a half year: bond coupons are paid and new government bonds issued.
    pub half_year_start: bool,
    /// First day of a year: new corporate bonds are issued.
    pub year_start: bool,
    /// Twentieth day of a month: the player is warned when next month's outflow
    /// exceeds the cash reserve. (Derivatives that mature in twenty days are checked
    /// every day, not only on this one.)
    pub outflow_check: bool,
}

impl DaySchedule {
    pub open spec fn spec_from_calendar(month: u32, day: u32) -> DaySchedule {
        DaySchedule {
            month_start: day == 1,
            quarter_start: day == 1 && spec_is_dividend_month(month),
            half_year_start: day == 1 && spec_is_coupon_month(month),
            year_start: day == 1 && month == 1,
            outflow_check: day == 20,
        }
    }

    /// The operations due on day `day` of month `month`.
    pub fn from_calendar(month: u32, day: u32) -> (r: DaySchedule)
        ensures
            r == Self::spec_from_calendar(month, day),
    {
        let month_start = day == 1;
        DaySchedule {
            month_start,
            quarter_start: month_start && is_dividend_month(month),
            half_year_start: month_start && is_coupon_month(month),
            year_start: month_start && month == 1,
            outflow_check: day == 20,
        }
    }

    /// The operations due on `date`, or `None` when the date lies outside the calendar.
    pub fn for_date(date: &GameDate) -> (r: Option<DaySchedule>)
        ensures
            r == match civil_from_day_number(date.day_number) {
                Some((_, m, d)) => Some(Self::spec_from_calendar(m, d)),
                None => None,
            },
    {
        match date.calendar() {
            Some((_, month, day)) => Some(Self::from_calendar(month, day)),
            None => None,
        }
    }
}

/// The periods nest: a year starts on a half-year start, a half year on a quarter
/// start and a quarter on a month start, so corporate bonds are issued only when
/// government bonds are, coupons are paid only when dividends are, and all of it only
/// on the first of a month. The outflow warning never falls on a month's first day.
pub proof fn schedule_periods_nest(month: u32, day: u32)
    requires
        1 <= month <= 12,
    ensures
        DaySchedule::spec_from_calendar(month, day).year_start ==> DaySchedule::spec_from_calendar(
            month,
            day,
        ).half_year_start,
        DaySchedule::spec_from_calendar(month, day).half_year_start
            ==> DaySchedule::spec_from_calendar(month, day).quarter_start,
        DaySchedule::spec_from_calendar(month, day).quarter_start
            ==> DaySchedule::spec_from_calendar(month, day).month_start,
        !(DaySchedule::spec_from_calendar(month, day).month_start
            && DaySchedule::spec_from_calendar(month, day).outflow_check),
{
}

} // verus!
