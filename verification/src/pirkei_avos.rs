//! The chapters of Avos, read week by week between Passover and the New
//! Year.

use crate::cycle::{Cycle, CycleView};
use crate::date::{
    day_in_range,
    day_of_hebrew,
    day_plus,
    from_hebrew_date,
    hebrew_day_of_month_of_day,
    hebrew_month_of_day,
    hebrew_year_of_day,
    saturday_from,
    week_end,
    weekday_number_of_day,
    HebrewDate,
    HebrewMonth,
};
use crate::interval::{Interval, IntervalView};
use crate::limud_calculator::{
    bounds_of,
    cycle_of,
    unit_of,
    CycleFinder,
    LimudCalculator,
    ResolveError,
    SchedulePolicy,
};
use crate::theorems::lemma_weekly_interval;
use vstd::prelude::*;

verus! {

/// What is read in one week: a chapter, or two chapters together.
#[derive(Clone, Copy, Debug, PartialEq, Eq, Structural, Hash)]
pub enum PirkeiAvosUnit {
    /// One chapter.
    Single(u8),
    /// Two chapters, read together where the weeks run short.
    Combined(u8, u8),
}

/// The chapters of Avos, one for each week that ends on a Saturday, from
/// the day after Passover to the last Saturday before the New Year. The
/// six chapters are read three times over; the weeks that are left take
/// them a fourth time, two at a time where the weeks run short.
pub struct PirkeiAvos {
    pub in_israel: bool,
}

/// The day of Nissan on which the cycle starts: the day after Passover.
pub open spec fn anchor_day(in_israel: bool) -> int {
    if in_israel {
        22
    } else {
        23
    }
}

/// The last Saturday before the day numbered `new_year`; that day itself
/// where the Saturday is out of range.
pub open spec fn saturday_before(new_year: int) -> int {
    match day_plus(new_year, -weekday_number_of_day(new_year)) {
        Some(saturday) => saturday,
        None => new_year,
    }
}

/// The first and the last day of the cycle of `date`: the cycle starts on
/// the day after Passover that comes last before or on `date`, and ends on
/// the last Saturday before the New Year that follows its start.
pub open spec fn yearly_cycle(in_israel: bool, date: int) -> Option<(int, int)> {
    let year = hebrew_year_of_day(date);
    if year <= i32::MIN || year >= i32::MAX {
        None
    } else {
        match day_of_hebrew(year, HebrewMonth::Nissan, anchor_day(in_israel)) {
            None => None,
            Some(this_year) => {
                let cycle_year = if date >= this_year {
                    year
                } else {
                    year - 1
                };
                match day_of_hebrew(cycle_year, HebrewMonth::Nissan, anchor_day(in_israel)) {
                    None => None,
                    Some(start) => match day_of_hebrew(cycle_year + 1, HebrewMonth::Tishrei, 1) {
                        None => None,
                        Some(new_year) => Some((start, saturday_before(new_year))),
                    },
                }
            },
        }
    }
}

/// Whether the week that ends on the day numbered `end` takes no chapter:
/// outside Israel, the week that ends on the seventh of Sivan, the second
/// day of the Feast of Weeks.
///
/// No other week is skipped, and in particular not the week that ends on
/// the eighth or on the ninth of Av, neither in Israel nor outside it: such
/// a week takes the chapter whose turn it is, and the chapters of the weeks
/// after it are fixed by that. The week that ends on Saturday the ninth of
/// Av 5778 (21 July 2018) takes the third chapter outside Israel and the
/// fourth in Israel, and so the week of the first of Elul 5778 starts the
/// fourth reading with the first chapter outside Israel and goes on with
/// the second in Israel. The same holds of the week that ends on Saturday
/// the eighth of Av 5781 (17 July 2021), which takes the third chapter, and
/// of the years 5782 and 5785. Were such a week skipped, each of these
/// chapters would come a week later.
pub open spec fn is_skip_week(in_israel: bool, end: int) -> bool {
    !in_israel && hebrew_month_of_day(end) == HebrewMonth::Sivan && hebrew_day_of_month_of_day(
        end,
    ) == 7
}

/// The chapter that the interval numbered `iteration` has where the six
/// chapters are read in turn.
pub open spec fn chapter_in_turn(iteration: int) -> int {
    (iteration - 1) % 6 + 1
}

/// The number of weeks that start after the day numbered `week_end` and
/// end no later than the day numbered `end`, a part of a week counted as a
/// week. The weeks are counted from the end of a week, not from a day in
/// it, so that all the days of a week have the unit of their week: the
/// fifteenth and the twentieth of Elul 5778, a Sunday and a Friday of one
/// week, both have one week left after theirs.
pub open spec fn weeks_remaining(end: int, week_end: int) -> int {
    (end - week_end + 6) / 7
}

/// What the interval numbered `iteration` takes in the fourth reading,
/// with `weeks_remain` weeks left after it. The weeks that are left do not
/// suffice for six chapters, so the last weeks take two chapters each: the
/// last week the fifth and the sixth, the week before it the third and the
/// fourth unless the third was read already, and the week before that the
/// first and the second where the reading only starts then. Every other
/// week takes the chapter whose turn it is, so that the fourth reading
/// takes each chapter once and in order, whether it has three, four or
/// five weeks (`lemma_fourth_reading`).
///
/// In 5778 the fourth reading has four weeks outside Israel and five in
/// Israel. Outside Israel the weeks that end on 7, 14, 21 and 28 Elul take
/// chapter 1, chapter 2, chapters 3 and 4, chapters 5 and 6. In Israel the
/// weeks that end on 30 Av and on 7, 14, 21 and 28 Elul take chapters 1, 2,
/// 3, 4 and then 5 and 6: the week that ends on 7 Elul has three weeks left
/// and takes chapter 2, whose turn it is, and the week that ends on 21 Elul
/// has one week left and takes chapter 4 alone, chapter 3 having been read
/// the week before. In 5780 the fourth reading has three weeks outside
/// Israel, which take two chapters each.
pub open spec fn unit_in_last_round(iteration: int, weeks_remain: int) -> PirkeiAvosUnit {
    if weeks_remain == 0 {
        PirkeiAvosUnit::Combined(5, 6)
    } else if weeks_remain == 1 && chapter_in_turn(iteration) <= 3 {
        PirkeiAvosUnit::Combined(3, 4)
    } else if weeks_remain == 2 && chapter_in_turn(iteration) == 1 {
        PirkeiAvosUnit::Combined(1, 2)
    } else {
        PirkeiAvosUnit::Single(chapter_in_turn(iteration) as u8)
    }
}

/// What the interval numbered `iteration` takes where it ends on the day
/// numbered `week_end`, in a cycle that ends on the day numbered `end`:
/// nothing where the number is below 1, and nothing in the fourth reading
/// where the interval ends after the cycle.
pub open spec fn unit_in_cycle(iteration: int, end: int, week_end: int) -> Option<
    PirkeiAvosUnit,
> {
    if iteration < 1 {
        None
    } else if iteration < 19 {
        Some(PirkeiAvosUnit::Single(chapter_in_turn(iteration) as u8))
    } else if week_end > end {
        None
    } else {
        Some(unit_in_last_round(iteration, weeks_remaining(end, week_end)))
    }
}

/// The fourth reading takes each of the six chapters once and in order,
/// and ends with the cycle, whether it has three, four or five weeks: its
/// first week is the interval numbered 19, and a week with `n` weeks left
/// after it is given here by the cycle ending on day `7 * n` and the week
/// on day 0.
pub proof fn lemma_fourth_reading()
    ensures
        unit_in_cycle(19, 14, 0) == Some(PirkeiAvosUnit::Combined(1, 2)),
        unit_in_cycle(20, 7, 0) == Some(PirkeiAvosUnit::Combined(3, 4)),
        unit_in_cycle(21, 0, 0) == Some(PirkeiAvosUnit::Combined(5, 6)),
        unit_in_cycle(19, 21, 0) == Some(PirkeiAvosUnit::Single(1)),
        unit_in_cycle(20, 14, 0) == Some(PirkeiAvosUnit::Single(2)),
        unit_in_cycle(21, 7, 0) == Some(PirkeiAvosUnit::Combined(3, 4)),
        unit_in_cycle(22, 0, 0) == Some(PirkeiAvosUnit::Combined(5, 6)),
        unit_in_cycle(19, 28, 0) == Some(PirkeiAvosUnit::Single(1)),
        unit_in_cycle(20, 21, 0) == Some(PirkeiAvosUnit::Single(2)),
        unit_in_cycle(21, 14, 0) == Some(PirkeiAvosUnit::Single(3)),
        unit_in_cycle(22, 7, 0) == Some(PirkeiAvosUnit::Single(4)),
        unit_in_cycle(23, 0, 0) == Some(PirkeiAvosUnit::Combined(5, 6)),
{
}

/// The week with which a cycle ends takes the last two chapters, once the
/// six chapters have been read three times.
pub proof fn lemma_last_week(iteration: int, end: int)
    requires
        iteration >= 19,
    ensures
        unit_in_cycle(iteration, end, end) == Some(PirkeiAvosUnit::Combined(5, 6)),
{
}

/// In the first three readings the chapters follow each other: the chapter
/// of an interval is the next after that of the interval before it, and
/// the first after the sixth.
pub proof fn lemma_chapters_in_turn(iteration: int, end: int, week_end: int, next_week_end: int)
    requires
        1 <= iteration < 18,
    ensures
        unit_in_cycle(iteration, end, week_end) == Some(
            PirkeiAvosUnit::Single(chapter_in_turn(iteration) as u8),
        ),
        unit_in_cycle(iteration + 1, end, next_week_end) == Some(
            PirkeiAvosUnit::Single(
                (if chapter_in_turn(iteration) == 6 {
                    1
                } else {
                    chapter_in_turn(iteration) + 1
                }) as u8,
            ),
        ),
{
}

/// In Israel, where no week is skipped, the unit of a date in its cycle is
/// that of the week of the date, numbered by the Saturdays of the cycle,
/// in a cycle that ends on a Saturday.
pub proof fn lemma_unit_of_day_in_israel(policy: PirkeiAvos, date: int, cycle: CycleView)
    requires
        policy.in_israel,
        cycle_of(policy, date) == Ok::<CycleView, ResolveError>(cycle),
        cycle.contains(date),
        cycle.end == saturday_from(cycle.end),
        day_in_range(cycle.start),
        day_in_range(cycle.end),
    ensures
        unit_of(policy, date) == Ok::<PirkeiAvosUnit, ResolveError>(
            unit_in_cycle(
                1 + (saturday_from(date) - saturday_from(cycle.start)) / 7,
                cycle.end,
                saturday_from(date),
            ).unwrap(),
        ),
        unit_in_cycle(
            1 + (saturday_from(date) - saturday_from(cycle.start)) / 7,
            cycle.end,
            saturday_from(date),
        ).is_some(),
{
    lemma_weekly_interval(policy, date, cycle);
}

/// The number of days from `start` to `end`.
pub fn days_between(start: HebrewDate, end: HebrewDate) -> (days: i64)
    ensures
        days == end@ - start@,
        -1_000_000_000 < days < 1_000_000_000,
{
    start.days_until(&end)
}

impl PirkeiAvos {
    /// The schedule as it is followed in Israel, or outside it.
    pub fn new(in_israel: bool) -> (r: PirkeiAvos)
        ensures
            r.in_israel == in_israel,
    {
        PirkeiAvos { in_israel }
    }

    /// The cycle of `date` as it is counted in Israel.
    pub fn find_yearly_cycle_israel(date: HebrewDate) -> (r: Option<(HebrewDate, HebrewDate)>)
        ensures
            bounds_of(r) == yearly_cycle(true, date@),
    {
        Self::find_yearly_cycle(true, date)
    }

    /// The cycle of `date` as it is counted outside Israel.
    pub fn find_yearly_cycle_diaspora(date: HebrewDate) -> (r: Option<(HebrewDate, HebrewDate)>)
        ensures
            bounds_of(r) == yearly_cycle(false, date@),
    {
        Self::find_yearly_cycle(false, date)
    }

    /// The first and the last day of the cycle of `date`.
    pub fn find_yearly_cycle(in_israel: bool, date: HebrewDate) -> (r: Option<
        (HebrewDate, HebrewDate),
    >)
        ensures
            bounds_of(r) == yearly_cycle(in_israel, date@),
    {
        let year = date.hebrew_year();
        if year <= i32::MIN || year >= i32::MAX {
            return None;
        }
        let anchor_day: u8 = if in_israel {
            22
        } else {
            23
        };
        let cycle_start_this_year = match from_hebrew_date(year, HebrewMonth::Nissan, anchor_day) {
            Some(start) => start,
            None => {
                return None;
            },
        };
        let (start_date, cycle_year) = if date.day_number() >= cycle_start_this_year.day_number() {
            (cycle_start_this_year, year)
        } else {
            match from_hebrew_date(year - 1, HebrewMonth::Nissan, anchor_day) {
                Some(start) => (start, year - 1),
                None => {
                    return None;
                },
            }
        };
        let rosh_hashana = match from_hebrew_date(cycle_year + 1, HebrewMonth::Tishrei, 1) {
            Some(new_year) => new_year,
            None => {
                return None;
            },
        };
        let day_number = rosh_hashana.day_of_week_number();
        let end_date = match rosh_hashana.add_days(-day_number) {
            Some(saturday) => saturday,
            None => rosh_hashana,
        };
        Some((start_date, end_date))
    }
}

impl SchedulePolicy<PirkeiAvosUnit> for PirkeiAvos {
    open spec fn anchor(&self) -> Option<int> {
        None
    }

    open spec fn perpetual_cycle_rule(&self, date: int) -> Option<(int, int)> {
        yearly_cycle(self.in_israel, date)
    }

    open spec fn cycle_end_rule(start: int, iteration: Option<int>) -> Option<int> {
        Some(start)
    }

    open spec fn interval_end_rule(cycle: CycleView, start: int) -> Option<int> {
        week_end(start)
    }

    open spec fn skip_rule(&self, interval: IntervalView) -> bool {
        is_skip_week(self.in_israel, interval.end)
    }

    open spec fn unit_rule(&self, interval: IntervalView, date: int) -> Option<PirkeiAvosUnit> {
        unit_in_cycle(interval.iteration, interval.cycle.end, interval.end)
    }

    proof fn lemma_cycle_end_rule(start: int, iteration: Option<int>) {
    }

    proof fn lemma_interval_end_rule(cycle: CycleView, start: int) {
    }

    fn cycle_finder(&self) -> (r: CycleFinder) {
        CycleFinder::Perpetual
    }

    fn perpetual_cycle(&self, date: HebrewDate) -> (r: Option<(HebrewDate, HebrewDate)>) {
        if self.in_israel {
            Self::find_yearly_cycle_israel(date)
        } else {
            Self::find_yearly_cycle_diaspora(date)
        }
    }

    fn cycle_end_calculation(hebrew_date: HebrewDate, _iteration: Option<i32>) -> (r: Option<
        HebrewDate,
    >) {
        Some(hebrew_date)
    }

    fn interval_end_calculation(_cycle: Cycle, hebrew_date: HebrewDate) -> (r: Option<HebrewDate>) {
        let day_number = hebrew_date.day_of_week_number();
        hebrew_date.add_days(7 - day_number)
    }

    fn is_skip_interval(&self, interval: &Interval) -> (b: bool) {
        if self.in_israel {
            return false;
        }
        let end_month = interval.end_date.hebrew_month();
        let end_day = interval.end_date.day_of_month();
        end_month == HebrewMonth::Sivan && end_day == 7
    }

    fn unit_for_interval(&self, interval: &Interval, _limud_date: &HebrewDate) -> (r: Option<
        PirkeiAvosUnit,
    >) {
        let iteration = interval.iteration;
        if iteration < 1 {
            return None;
        }
        let chapter = (((iteration - 1) % 6) + 1) as u8;
        if iteration < 19 {
            return Some(PirkeiAvosUnit::Single(chapter));
        }
        let days_until_end = days_between(interval.end_date, interval.cycle.end_date);
        if days_until_end < 0 {
            return None;
        }
        let weeks_remain = (days_until_end + 6) / 7;
        if weeks_remain == 0 {
            Some(PirkeiAvosUnit::Combined(5, 6))
        } else if weeks_remain == 1 && chapter <= 3 {
            Some(PirkeiAvosUnit::Combined(3, 4))
        } else if weeks_remain == 2 && chapter == 1 {
            Some(PirkeiAvosUnit::Combined(1, 2))
        } else {
            Some(PirkeiAvosUnit::Single(chapter))
        }
    }
}

impl LimudCalculator<PirkeiAvosUnit> for PirkeiAvos {
}

} // verus!
