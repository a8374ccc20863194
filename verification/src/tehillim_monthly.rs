//! The Psalms, read through once in each month of the Hebrew calendar.

use crate::cycle::{Cycle, CycleView};
use crate::date::{
    day_in_range,
    day_of_hebrew,
    from_hebrew_date,
    hebrew_day_of_month_of_day,
    hebrew_month_length_of_day,
    hebrew_month_of_day,
    hebrew_year_of_day,
    HebrewDate,
};
use crate::interval::{Interval, IntervalView};
use crate::limud_calculator::{
    bounds_of,
    cycle_of,
    unit_of,
    CycleFinder,
    LimudCalculator,
    ResolveError,
    SchedulePolicy,
};
use crate::theorems::lemma_single_day_interval;
use vstd::prelude::*;

verus! {

/// The last psalm of each day of the month, from the first day to the
/// thirtieth.
pub const DEFAULT_UNITS: [u8; 30] = [
    9,
    17,
    22,
    28,
    34,
    38,
    43,
    48,
    54,
    59,
    65,
    68,
    71,
    76,
    78,
    82,
    87,
    89,
    96,
    103,
    105,
    107,
    112,
    118,
    119,
    119,
    134,
    139,
    144,
    150,
];

/// What is read on one day: some psalms, or some verses of one psalm.
#[derive(Clone, Copy, Debug, PartialEq, Eq, Structural, Hash)]
pub enum TehillimUnit {
    /// The psalms from `start` to `end`.
    Psalms { start: u8, end: u8 },
    /// The verses from `start_verse` to `end_verse` of the psalm `psalm`.
    PsalmVerses { psalm: u8, start_verse: u16, end_verse: u16 },
}

/// The Psalms, divided over the days of the month: each month of the
/// Hebrew calendar is a cycle and each of its days an interval.
#[derive(Default)]
pub struct TehillimMonthly;

/// The first and the last day of the month of `date`.
pub open spec fn monthly_cycle(date: int) -> Option<(int, int)> {
    let year = hebrew_year_of_day(date);
    let month = hebrew_month_of_day(date);
    match day_of_hebrew(year, month, 1) {
        None => None,
        Some(start) => match day_of_hebrew(year, month, hebrew_month_length_of_day(date)) {
            None => None,
            Some(end) => Some((start, end)),
        },
    }
}

/// What is read on the day of the month numbered `iteration`. The long
/// psalm 119 takes two days. On the twenty-ninth day of a month of 29 days,
/// `month_ends` holds and the reading goes on to the end of the book.
/// No day has a number below 1 or above 30.
pub open spec fn reading_of_day(iteration: int, month_ends: bool) -> Option<TehillimUnit> {
    if iteration == 25 {
        Some(TehillimUnit::PsalmVerses { psalm: 119, start_verse: 1, end_verse: 96 })
    } else if iteration == 26 {
        Some(TehillimUnit::PsalmVerses { psalm: 119, start_verse: 97, end_verse: 176 })
    } else if iteration < 1 || iteration > 30 {
        None
    } else {
        Some(
            TehillimUnit::Psalms {
                start: if iteration == 1 {
                    1
                } else {
                    (DEFAULT_UNITS@[iteration - 2] + 1) as u8
                },
                end: if month_ends && iteration < 30 {
                    DEFAULT_UNITS@[iteration]
                } else {
                    DEFAULT_UNITS@[iteration - 1]
                },
            },
        )
    }
}

/// Whether the day numbered `day` is the twenty-ninth and last day of its
/// month.
pub open spec fn ends_short_month(day: int) -> bool {
    hebrew_day_of_month_of_day(day) == 29 && hebrew_month_length_of_day(day) == 29
}

/// The reading of a date is that of its day of the month, counted from
/// the first day of the cycle, where the cycle holds the date.
pub proof fn lemma_unit_of_day(policy: TehillimMonthly, date: int, cycle: CycleView)
    requires
        cycle_of(policy, date) == Ok::<CycleView, ResolveError>(cycle),
        cycle.contains(date),
        day_in_range(cycle.start),
        day_in_range(cycle.end),
    ensures
        unit_of(policy, date) == (match reading_of_day(
            date - cycle.start + 1,
            ends_short_month(date),
        ) {
            Some(unit) => Ok::<TehillimUnit, ResolveError>(unit),
            None => Err::<TehillimUnit, ResolveError>(ResolveError::NoUnitScheduled),
        }),
{
    lemma_single_day_interval(policy, date, cycle);
}

/// The book is read to its end in every month: the thirtieth day ends
/// with the last psalm, and so does the twenty-ninth day of a month of 29
/// days, which takes the reading of the thirtieth day with its own.
pub proof fn lemma_month_ends_with_last_psalm()
    ensures
        reading_of_day(30, false) == Some(TehillimUnit::Psalms { start: 145, end: 150 }),
        reading_of_day(29, false) == Some(TehillimUnit::Psalms { start: 140, end: 144 }),
        reading_of_day(29, true) == Some(TehillimUnit::Psalms { start: 140, end: 150 }),
        reading_of_day(1, false) == Some(TehillimUnit::Psalms { start: 1, end: 9 }),
{
}

/// The first and the last day of the month of `date`.
pub fn find_monthly_cycle(date: HebrewDate) -> (r: Option<(HebrewDate, HebrewDate)>)
    ensures
        bounds_of(r) == monthly_cycle(date@),
{
    let year = date.hebrew_year();
    let month = date.hebrew_month();
    let start = match from_hebrew_date(year, month, 1) {
        Some(start) => start,
        None => {
            return None;
        },
    };
    let days_in_month = date.days_in_month();
    match from_hebrew_date(year, month, days_in_month) {
        Some(end) => Some((start, end)),
        None => None,
    }
}

impl SchedulePolicy<TehillimUnit> for TehillimMonthly {
    open spec fn anchor(&self) -> Option<int> {
        None
    }

    open spec fn perpetual_cycle_rule(&self, date: int) -> Option<(int, int)> {
        monthly_cycle(date)
    }

    open spec fn cycle_end_rule(start: int, iteration: Option<int>) -> Option<int> {
        Some(start)
    }

    open spec fn interval_end_rule(cycle: CycleView, start: int) -> Option<int> {
        Some(start)
    }

    open spec fn skip_rule(&self, interval: IntervalView) -> bool {
        false
    }

    open spec fn unit_rule(&self, interval: IntervalView, date: int) -> Option<TehillimUnit> {
        reading_of_day(interval.iteration, ends_short_month(interval.end))
    }

    proof fn lemma_cycle_end_rule(start: int, iteration: Option<int>) {
    }

    proof fn lemma_interval_end_rule(cycle: CycleView, start: int) {
    }

    fn cycle_finder(&self) -> (r: CycleFinder) {
        CycleFinder::Perpetual
    }

    fn perpetual_cycle(&self, date: HebrewDate) -> (r: Option<(HebrewDate, HebrewDate)>) {
        find_monthly_cycle(date)
    }

    fn cycle_end_calculation(hebrew_date: HebrewDate, _iteration: Option<i32>) -> (r: Option<
        HebrewDate,
    >) {
        Some(hebrew_date)
    }

    fn interval_end_calculation(_cycle: Cycle, hebrew_date: HebrewDate) -> (r: Option<HebrewDate>) {
        Some(hebrew_date)
    }

    fn is_skip_interval(&self, _interval: &Interval) -> (b: bool) {
        false
    }

    fn unit_for_interval(&self, interval: &Interval, _limud_date: &HebrewDate) -> (r: Option<
        TehillimUnit,
    >) {
        let iteration = interval.iteration;
        if iteration == 25 {
            return Some(TehillimUnit::PsalmVerses { psalm: 119, start_verse: 1, end_verse: 96 });
        }
        if iteration == 26 {
            return Some(TehillimUnit::PsalmVerses { psalm: 119, start_verse: 97, end_verse: 176 });
        }
        if iteration < 1 || iteration > 30 {
            return None;
        }
        let place = iteration as usize;
        let start: u8 = if place == 1 {
            1
        } else {
            let prev_end = DEFAULT_UNITS[place - 2];
            assert(prev_end <= 150) by {
                lemma_default_units_bound((place - 2) as int);
            }
            prev_end + 1
        };
        let mut stop = DEFAULT_UNITS[place - 1];
        let day = interval.end_date.day_of_month();
        let days_in_month = interval.end_date.days_in_month();
        if day == 29 && days_in_month == 29 && iteration < 30 {
            stop = DEFAULT_UNITS[place];
        }
        Some(TehillimUnit::Psalms { start, end: stop })
    }
}

/// No day ends later than with the last psalm, the 150th.
pub proof fn lemma_default_units_bound(place: int)
    requires
        0 <= place < 30,
    ensures
        DEFAULT_UNITS@[place] <= 150,
{
    assert(forall|i: int| 0 <= i < 30 ==> #[trigger] DEFAULT_UNITS@[i] <= 150) by {
        assert(DEFAULT_UNITS@[0] <= 150);
        assert(DEFAULT_UNITS@[1] <= 150);
        assert(DEFAULT_UNITS@[2] <= 150);
        assert(DEFAULT_UNITS@[3] <= 150);
        assert(DEFAULT_UNITS@[4] <= 150);
        assert(DEFAULT_UNITS@[5] <= 150);
        assert(DEFAULT_UNITS@[6] <= 150);
        assert(DEFAULT_UNITS@[7] <= 150);
        assert(DEFAULT_UNITS@[8] <= 150);
        assert(DEFAULT_UNITS@[9] <= 150);
        assert(DEFAULT_UNITS@[10] <= 150);
        assert(DEFAULT_UNITS@[11] <= 150);
        assert(DEFAULT_UNITS@[12] <= 150);
        assert(DEFAULT_UNITS@[13] <= 150);
        assert(DEFAULT_UNITS@[14] <= 150);
        assert(DEFAULT_UNITS@[15] <= 150);
        assert(DEFAULT_UNITS@[16] <= 150);
        assert(DEFAULT_UNITS@[17] <= 150);
        assert(DEFAULT_UNITS@[18] <= 150);
        assert(DEFAULT_UNITS@[19] <= 150);
        assert(DEFAULT_UNITS@[20] <= 150);
        assert(DEFAULT_UNITS@[21] <= 150);
        assert(DEFAULT_UNITS@[22] <= 150);
        assert(DEFAULT_UNITS@[23] <= 150);
        assert(DEFAULT_UNITS@[24] <= 150);
        assert(DEFAULT_UNITS@[25] <= 150);
        assert(DEFAULT_UNITS@[26] <= 150);
        assert(DEFAULT_UNITS@[27] <= 150);
        assert(DEFAULT_UNITS@[28] <= 150);
        assert(DEFAULT_UNITS@[29] <= 150);
    }
}

impl LimudCalculator<TehillimUnit> for TehillimMonthly {
}

} // verus!
