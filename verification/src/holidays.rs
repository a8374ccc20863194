//! The two fast days on which a daily schedule may rest.

use crate::date::{
    hebrew_day_of_month_of_day,
    hebrew_month_of_day,
    weekday_of_day,
    HebrewDate,
    HebrewMonth,
    Weekday,
};
use vstd::prelude::*;

verus! {

/// Whether the day numbered `day` is the Day of Atonement: the tenth of
/// Tishrei.
pub open spec fn is_yom_kippur_number(day: int) -> bool {
    hebrew_month_of_day(day) == HebrewMonth::Tishrei && hebrew_day_of_month_of_day(day) == 10
}

/// Whether the fast of the Ninth of Av is held on the day numbered `day`:
/// on the ninth of Av, unless that is a Saturday, and then on the Sunday
/// that follows, the tenth.
pub open spec fn is_tishah_bav_number(day: int) -> bool {
    hebrew_month_of_day(day) == HebrewMonth::Av && ((weekday_of_day(day) == Weekday::Sunday
        && hebrew_day_of_month_of_day(day) == 10) || (weekday_of_day(day) != Weekday::Saturday
        && hebrew_day_of_month_of_day(day) == 9))
}

/// Whether the day numbered `day` is one of the two fast days.
pub open spec fn is_fast_day_number(day: int) -> bool {
    is_tishah_bav_number(day) || is_yom_kippur_number(day)
}

/// Whether `date` is the Day of Atonement.
pub fn is_yom_kippur(date: &HebrewDate) -> (b: bool)
    ensures
        b == is_yom_kippur_number(date@),
{
    date.hebrew_month() == HebrewMonth::Tishrei && date.day_of_month() == 10
}

/// Whether the fast of the Ninth of Av is held on `date`.
pub fn is_tishah_bav(date: &HebrewDate) -> (b: bool)
    ensures
        b == is_tishah_bav_number(date@),
{
    if date.hebrew_month() != HebrewMonth::Av {
        return false;
    }
    let weekday = date.weekday();
    let day = date.day_of_month();
    (weekday == Weekday::Sunday && day == 10) || (weekday != Weekday::Saturday && day == 9)
}

/// Whether `date` is one of the two fast days.
pub fn is_fast_day(date: &HebrewDate) -> (b: bool)
    ensures
        b == is_fast_day_number(date@),
{
    is_tishah_bav(date) || is_yom_kippur(date)
}

} // verus!
