//! Calendar dates as day numbers, with the calendar queries that the
//! schedules need.
//!
//! A date is modelled by its day number: the count of days from a fixed
//! origin, so that consecutive dates have consecutive numbers and the order
//! of dates is the order of integers. Day arithmetic is stated exactly over
//! that model. What depends on the structure of the Hebrew or the Gregorian
//! calendar (year, month, day of month, month length, and the day number of
//! a given calendar date) is computed by `icu_calendar` and appears in
//! contracts under a name only.

use icu_calendar::cal::Hebrew;
use icu_calendar::options::{DateAddOptions, DateDifferenceOptions, DateDurationUnit};
use icu_calendar::types::{DateDuration, Month, RataDie};
use icu_calendar::Date;
use vstd::prelude::*;

verus! {

/// The earliest day number that a date can hold: the first of January of
/// the year -999999 of the Gregorian calendar.
pub const MIN_DAY_NUMBER: i64 = -365_242_499;

/// The latest day number that a date can hold: the last of December of the
/// year 999999 of the Gregorian calendar.
pub const MAX_DAY_NUMBER: i64 = 365_242_134;

/// Whether `day` lies in the range of days that a date can hold.
pub open spec fn day_in_range(day: int) -> bool {
    MIN_DAY_NUMBER <= day <= MAX_DAY_NUMBER
}

/// The number of days from the day numbered `from` up to the one numbered
/// `to`: none where `to` is not the later one.
pub open spec fn days_left(from: int, to: int) -> nat {
    if to > from {
        (to - from) as nat
    } else {
        0
    }
}

/// The day `days` days after the day numbered `day`, or nothing where that
/// day is out of range.
pub open spec fn day_plus(day: int, days: int) -> Option<int> {
    if day_in_range(day + days) {
        Some(day + days)
    } else {
        None
    }
}

/// A day of the week.
#[derive(Clone, Copy, Debug, PartialEq, Eq, Structural)]
pub enum Weekday {
    Sunday,
    Monday,
    Tuesday,
    Wednesday,
    Thursday,
    Friday,
    Saturday,
}

/// The weekday of the day numbered `day`: day 0 is a Sunday.
pub open spec fn weekday_of_day(day: int) -> Weekday {
    let r = day % 7;
    if r == 0 {
        Weekday::Sunday
    } else if r == 1 {
        Weekday::Monday
    } else if r == 2 {
        Weekday::Tuesday
    } else if r == 3 {
        Weekday::Wednesday
    } else if r == 4 {
        Weekday::Thursday
    } else if r == 5 {
        Weekday::Friday
    } else {
        Weekday::Saturday
    }
}

/// The number of the weekday of the day numbered `day`, from 1 for Sunday
/// to 7 for Saturday.
pub open spec fn weekday_number_of_day(day: int) -> int {
    day % 7 + 1
}

/// The Saturday on or after the day numbered `day`.
pub open spec fn saturday_from(day: int) -> int {
    day + 7 - weekday_number_of_day(day)
}

/// The last day of the week of the day numbered `day`, a week ending on
/// its Saturday; nothing where that day is out of range.
pub open spec fn week_end(day: int) -> Option<int> {
    day_plus(day, 7 - weekday_number_of_day(day))
}

/// A month of the Hebrew calendar. In a leap year `AdarI` is the added
/// month and `Adar` the month that follows it.
#[derive(Clone, Copy, Debug, PartialEq, Eq, Structural)]
pub enum HebrewMonth {
    Tishrei,
    Cheshvan,
    Kislev,
    Teves,
    Shevat,
    AdarI,
    Adar,
    Nissan,
    Iyar,
    Sivan,
    Tammuz,
    Av,
    Elul,
}

impl HebrewMonth {
    /// The number of this month in a common year that starts with Tishrei;
    /// the added month shares the number of the month before it.
    pub open spec fn number(self) -> int {
        match self {
            HebrewMonth::Tishrei => 1,
            HebrewMonth::Cheshvan => 2,
            HebrewMonth::Kislev => 3,
            HebrewMonth::Teves => 4,
            HebrewMonth::Shevat => 5,
            HebrewMonth::AdarI => 5,
            HebrewMonth::Adar => 6,
            HebrewMonth::Nissan => 7,
            HebrewMonth::Iyar => 8,
            HebrewMonth::Sivan => 9,
            HebrewMonth::Tammuz => 10,
            HebrewMonth::Av => 11,
            HebrewMonth::Elul => 12,
        }
    }

    /// Whether this is the month that only a leap year has.
    pub open spec fn is_added(self) -> bool {
        self == HebrewMonth::AdarI
    }

    /// The month with the given number, added or not. A number that no
    /// month has stands for `Elul`.
    pub open spec fn of_code(number: int, added: bool) -> HebrewMonth {
        if added && number == 5 {
            HebrewMonth::AdarI
        } else if number == 1 {
            HebrewMonth::Tishrei
        } else if number == 2 {
            HebrewMonth::Cheshvan
        } else if number == 3 {
            HebrewMonth::Kislev
        } else if number == 4 {
            HebrewMonth::Teves
        } else if number == 5 {
            HebrewMonth::Shevat
        } else if number == 6 {
            HebrewMonth::Adar
        } else if number == 7 {
            HebrewMonth::Nissan
        } else if number == 8 {
            HebrewMonth::Iyar
        } else if number == 9 {
            HebrewMonth::Sivan
        } else if number == 10 {
            HebrewMonth::Tammuz
        } else if number == 11 {
            HebrewMonth::Av
        } else {
            HebrewMonth::Elul
        }
    }

    /// The number of this month and whether it is the added month.
    pub fn code(self) -> (r: (u8, bool))
        ensures
            r.0 == self.number(),
            r.1 == self.is_added(),
            HebrewMonth::of_code(r.0 as int, r.1) == self,
    {
        match self {
            HebrewMonth::Tishrei => (1, false),
            HebrewMonth::Cheshvan => (2, false),
            HebrewMonth::Kislev => (3, false),
            HebrewMonth::Teves => (4, false),
            HebrewMonth::Shevat => (5, false),
            HebrewMonth::AdarI => (5, true),
            HebrewMonth::Adar => (6, false),
            HebrewMonth::Nissan => (7, false),
            HebrewMonth::Iyar => (8, false),
            HebrewMonth::Sivan => (9, false),
            HebrewMonth::Tammuz => (10, false),
            HebrewMonth::Av => (11, false),
            HebrewMonth::Elul => (12, false),
        }
    }

    /// The month with the given number, added or not.
    pub fn from_code(number: u8, added: bool) -> (r: HebrewMonth)
        ensures
            r == HebrewMonth::of_code(number as int, added),
    {
        if added && number == 5 {
            HebrewMonth::AdarI
        } else if number == 1 {
            HebrewMonth::Tishrei
        } else if number == 2 {
            HebrewMonth::Cheshvan
        } else if number == 3 {
            HebrewMonth::Kislev
        } else if number == 4 {
            HebrewMonth::Teves
        } else if number == 5 {
            HebrewMonth::Shevat
        } else if number == 6 {
            HebrewMonth::Adar
        } else if number == 7 {
            HebrewMonth::Nissan
        } else if number == 8 {
            HebrewMonth::Iyar
        } else if number == 9 {
            HebrewMonth::Sivan
        } else if number == 10 {
            HebrewMonth::Tammuz
        } else if number == 11 {
            HebrewMonth::Av
        } else {
            HebrewMonth::Elul
        }
    }
}

/// The Hebrew year that holds the day numbered `day`.
pub uninterp spec fn hebrew_year_of_day(day: int) -> int;

/// The number of the Hebrew month that holds the day numbered `day`, and
/// whether that month is the added month of a leap year.
pub uninterp spec fn hebrew_month_code_of_day(day: int) -> (int, bool);

/// The day of its Hebrew month that the day numbered `day` is.
pub uninterp spec fn hebrew_day_of_month_of_day(day: int) -> int;

/// The number of days in the Hebrew month that holds the day numbered `day`.
pub uninterp spec fn hebrew_month_length_of_day(day: int) -> int;

/// The day number of the given date of the Hebrew calendar, or nothing where
/// the calendar has no such date.
pub uninterp spec fn day_of_hebrew_date(year: int, month_number: int, added: bool, day: int) -> Option<int>;

/// The day number of the given date of the Gregorian calendar, or nothing
/// where the calendar has no such date.
pub uninterp spec fn day_of_gregorian_date(year: int, month: int, day: int) -> Option<int>;

/// The Hebrew month that holds the day numbered `day`.
pub open spec fn hebrew_month_of_day(day: int) -> HebrewMonth {
    HebrewMonth::of_code(hebrew_month_code_of_day(day).0, hebrew_month_code_of_day(day).1)
}

/// The day number of the given day of the given month of a Hebrew year, or
/// nothing where the calendar has no such date.
pub open spec fn day_of_hebrew(year: int, month: HebrewMonth, day: int) -> Option<int> {
    day_of_hebrew_date(year, month.number(), month.is_added(), day)
}

/// `Date::try_added_with_options`, called with a duration of `days` days
/// and the default options, on the date with the given day number. The
/// contract claims that the result is the date `days` days later, and that
/// the call fails exactly where that date is out of range.
#[verifier::external_body]
fn shifted_day(day: i64, days: i32) -> (r: Option<i64>)
    requires
        day_in_range(day as int),
    ensures
        day_in_range(day + days) ==> r == Some((day + days) as i64),
        !day_in_range(day + days) ==> r.is_none(),
{
    let date = Date::from_rata_die(RataDie::new(day), Hebrew);
    match date.try_added_with_options(DateDuration::for_days(days), DateAddOptions::default()) {
        Ok(shifted) => Some(shifted.to_rata_die().to_i64_date()),
        Err(_) => None,
    }
}

/// `Date::try_until_with_options`, called on the dates with the given day
/// numbers, for a duration in days. The contract claims that the duration
/// that comes back counts the days between the two dates, and is marked
/// negative exactly where the second date is the earlier one.
#[verifier::external_body]
fn day_gap(from: i64, to: i64) -> (r: (bool, u32))
    requires
        day_in_range(from as int),
        day_in_range(to as int),
    ensures
        r.0 == (to < from),
        to >= from ==> r.1 == to - from,
        to < from ==> r.1 == from - to,
{
    let start = Date::from_rata_die(RataDie::new(from), Hebrew);
    let end = Date::from_rata_die(RataDie::new(to), Hebrew);
    let mut options = DateDifferenceOptions::default();
    options.largest_unit = Some(DateDurationUnit::Days);
    match start.try_until_with_options(&end, options) {
        Ok(duration) => (duration.is_negative, duration.days),
    }
}

/// `Date::weekday` on the date with the given day number. The contract
/// claims that day 0 is a Sunday and that the weekdays follow each other in
/// their order from there.
#[verifier::external_body]
fn weekday_on(day: i64) -> (r: Weekday)
    requires
        day_in_range(day as int),
    ensures
        r == weekday_of_day(day as int),
{
    match Date::from_rata_die(RataDie::new(day), Hebrew).weekday() {
        icu_calendar::types::Weekday::Sunday => Weekday::Sunday,
        icu_calendar::types::Weekday::Monday => Weekday::Monday,
        icu_calendar::types::Weekday::Tuesday => Weekday::Tuesday,
        icu_calendar::types::Weekday::Wednesday => Weekday::Wednesday,
        icu_calendar::types::Weekday::Thursday => Weekday::Thursday,
        icu_calendar::types::Weekday::Friday => Weekday::Friday,
        icu_calendar::types::Weekday::Saturday => Weekday::Saturday,
    }
}

/// `Date::year` and `YearInfo::extended_year` on the date with the given
/// day number, in the Hebrew calendar. The contract names the result.
#[verifier::external_body]
fn hebrew_year_on(day: i64) -> (r: i32)
    requires
        day_in_range(day as int),
    ensures
        r == hebrew_year_of_day(day as int),
{
    Date::from_rata_die(RataDie::new(day), Hebrew).year().extended_year()
}

/// `Date::month` on the date with the given day number, in the Hebrew
/// calendar: the month's number and whether it is a leap month. The
/// contract names the result.
#[verifier::external_body]
fn hebrew_month_code_on(day: i64) -> (r: (u8, bool))
    requires
        day_in_range(day as int),
    ensures
        r.0 == hebrew_month_code_of_day(day as int).0,
        r.1 == hebrew_month_code_of_day(day as int).1,
{
    let month = Date::from_rata_die(RataDie::new(day), Hebrew).month();
    (month.number(), month.to_input().is_leap())
}

/// `Date::day_of_month` on the date with the given day number, in the
/// Hebrew calendar. The contract names the result.
#[verifier::external_body]
fn hebrew_day_of_month_on(day: i64) -> (r: u8)
    requires
        day_in_range(day as int),
    ensures
        r == hebrew_day_of_month_of_day(day as int),
{
    Date::from_rata_die(RataDie::new(day), Hebrew).day_of_month().0
}

/// `Date::days_in_month` on the date with the given day number, in the
/// Hebrew calendar. The contract names the result.
#[verifier::external_body]
fn hebrew_month_length_on(day: i64) -> (r: u8)
    requires
        day_in_range(day as int),
    ensures
        r == hebrew_month_length_of_day(day as int),
{
    Date::from_rata_die(RataDie::new(day), Hebrew).days_in_month()
}

/// `Date::try_new_hebrew_v2` and `Date::to_rata_die`. The contract names the
/// day number that comes back and claims that it lies in the range of days
/// that a date can hold.
#[verifier::external_body]
fn hebrew_date_day_number(year: i32, month_number: u8, added: bool, day: u8) -> (r: Option<i64>)
    ensures
        r.is_some() == day_of_hebrew_date(year as int, month_number as int, added, day as int).is_some(),
        r matches Some(n) ==> day_of_hebrew_date(year as int, month_number as int, added, day as int)
            == Some(n as int) && day_in_range(n as int),
{
    let month = if added {
        Month::leap(month_number)
    } else {
        Month::new(month_number)
    };
    match Date::try_new_hebrew_v2(year, month, day) {
        Ok(date) => Some(date.to_rata_die().to_i64_date()),
        Err(_) => None,
    }
}

/// `Date::try_new_gregorian` and `Date::to_rata_die`. The contract names the
/// day number that comes back and claims that it lies in the range of days
/// that a date can hold.
#[verifier::external_body]
fn gregorian_date_day_number(year: i32, month: u8, day: u8) -> (r: Option<i64>)
    ensures
        r.is_some() == day_of_gregorian_date(year as int, month as int, day as int).is_some(),
        r matches Some(n) ==> day_of_gregorian_date(year as int, month as int, day as int) == Some(
            n as int,
        ) && day_in_range(n as int),
{
    match Date::try_new_gregorian(year, month, day) {
        Ok(date) => Some(date.to_rata_die().to_i64_date()),
        Err(_) => None,
    }
}

/// A date, held as its day number: day 1 is the first of January of the
/// year 1 of the Gregorian calendar, and day 0, the day before it, is a
/// Sunday.
#[derive(Clone, Copy, Debug, PartialEq, Eq, Structural, Hash, PartialOrd, Ord)]
pub struct HebrewDate {
    day: i64,
}

impl View for HebrewDate {
    type V = int;

    closed spec fn view(&self) -> int {
        self.day as int
    }
}

/// The day number of an optional date.
pub open spec fn day_of(date: Option<HebrewDate>) -> Option<int> {
    match date {
        Some(d) => Some(d@),
        None => None,
    }
}

impl HebrewDate {
    /// Every date lies in the range of days that a date can hold.
    #[verifier::type_invariant]
    pub open spec fn in_range(self) -> bool {
        day_in_range(self@)
    }

    /// Two dates with the same day number are the same date.
    pub proof fn lemma_same_day(self, other: HebrewDate)
        requires
            self@ == other@,
        ensures
            self == other,
    {
    }

    /// The day number of this date.
    pub fn day_number(&self) -> (n: i64)
        ensures
            n == self@,
            day_in_range(n as int),
    {
        proof {
            use_type_invariant(self);
        }
        self.day
    }

    /// The date with the given day number.
    pub fn on_day(day: i64) -> (r: HebrewDate)
        requires
            day_in_range(day as int),
        ensures
            r@ == day,
    {
        HebrewDate { day }
    }

    /// The date with the given day number, or nothing where the number is
    /// out of range.
    pub fn from_day_number(day: i64) -> (r: Option<HebrewDate>)
        ensures
            day_of(r) == (if day_in_range(day as int) {
                Some(day as int)
            } else {
                None
            }),
    {
        if MIN_DAY_NUMBER <= day && day <= MAX_DAY_NUMBER {
            Some(HebrewDate { day })
        } else {
            None
        }
    }

    /// The date `days` days after this one (before it, where `days` is
    /// negative), or nothing where that date is out of range.
    pub fn add_days(&self, days: i32) -> (r: Option<HebrewDate>)
        ensures
            day_of(r) == day_plus(self@, days as int),
    {
        proof {
            use_type_invariant(self);
        }
        match shifted_day(self.day, days) {
            Some(day) => Some(HebrewDate { day }),
            None => None,
        }
    }

    /// The number of days from this date to `other`: negative where `other`
    /// is the earlier of the two.
    pub fn days_until(&self, other: &HebrewDate) -> (n: i64)
        ensures
            n == other@ - self@,
            MIN_DAY_NUMBER - MAX_DAY_NUMBER <= n <= MAX_DAY_NUMBER - MIN_DAY_NUMBER,
    {
        proof {
            use_type_invariant(self);
            use_type_invariant(other);
        }
        let (negative, days) = day_gap(self.day, other.day);
        if negative {
            -(days as i64)
        } else {
            days as i64
        }
    }

    /// The weekday of this date.
    pub fn weekday(&self) -> (r: Weekday)
        ensures
            r == weekday_of_day(self@),
    {
        proof {
            use_type_invariant(self);
        }
        weekday_on(self.day)
    }

    /// The number of this date's weekday, from 1 for Sunday to 7 for
    /// Saturday.
    pub fn day_of_week_number(&self) -> (n: i32)
        ensures
            n == weekday_number_of_day(self@),
            1 <= n <= 7,
    {
        match self.weekday() {
            Weekday::Sunday => 1,
            Weekday::Monday => 2,
            Weekday::Tuesday => 3,
            Weekday::Wednesday => 4,
            Weekday::Thursday => 5,
            Weekday::Friday => 6,
            Weekday::Saturday => 7,
        }
    }

    /// The Hebrew year of this date.
    pub fn hebrew_year(&self) -> (r: i32)
        ensures
            r == hebrew_year_of_day(self@),
    {
        proof {
            use_type_invariant(self);
        }
        hebrew_year_on(self.day)
    }

    /// The Hebrew month of this date.
    pub fn hebrew_month(&self) -> (r: HebrewMonth)
        ensures
            r == hebrew_month_of_day(self@),
    {
        proof {
            use_type_invariant(self);
        }
        let (number, added) = hebrew_month_code_on(self.day);
        HebrewMonth::from_code(number, added)
    }

    /// The day of its Hebrew month that this date is.
    pub fn day_of_month(&self) -> (r: u8)
        ensures
            r == hebrew_day_of_month_of_day(self@),
    {
        proof {
            use_type_invariant(self);
        }
        hebrew_day_of_month_on(self.day)
    }

    /// The number of days in the Hebrew month of this date.
    pub fn days_in_month(&self) -> (r: u8)
        ensures
            r == hebrew_month_length_of_day(self@),
    {
        proof {
            use_type_invariant(self);
        }
        hebrew_month_length_on(self.day)
    }
}

/// The date that the Gregorian calendar calls by the given year, month and
/// day, or nothing where it has no such date.
pub fn from_gregorian_date(year: i32, month: u8, day: u8) -> (r: Option<HebrewDate>)
    ensures
        day_of(r) == day_of_gregorian_date(year as int, month as int, day as int),
{
    match gregorian_date_day_number(year, month, day) {
        Some(day) => Some(HebrewDate { day }),
        None => None,
    }
}

/// The date that the Hebrew calendar calls by the given year, month and
/// day, or nothing where it has no such date.
pub fn from_hebrew_date(year: i32, month: HebrewMonth, day: u8) -> (r: Option<HebrewDate>)
    ensures
        day_of(r) == day_of_hebrew(year as int, month, day as int),
{
    let (number, added) = month.code();
    match hebrew_date_day_number(year, number, added, day) {
        Some(day) => Some(HebrewDate { day }),
        None => None,
    }
}

} // verus!
