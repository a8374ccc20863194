//! The daily page of the Babylonian Talmud.

use crate::constants::{
    BAVLI_DAF_COUNT_EARLY,
    BAVLI_DAF_COUNT_MODERN,
    DAF_YOMI_BAVLI_START,
    SHEKALIM_EXPANSION_CYCLE,
};
use crate::cycle::{next_cycle, Cycle, CycleView};
use crate::date::{day_plus, HebrewDate};
use crate::interval::{Interval, IntervalView};
use crate::limud_calculator::{
    cycle_of,
    unit_of,
    CycleFinder,
    LimudCalculator,
    ResolveError,
    SchedulePolicy,
};
use crate::theorems::{
    lemma_counted_cycle_holds_date,
    lemma_day_after_cycle,
    lemma_single_day_interval,
};
use crate::units::{
    dafs_of,
    item_at,
    nth,
    page_run,
    pages_between,
    push_dafs,
    Daf,
    Tractate,
    BAVLI_TRACTATES,
};
use vstd::prelude::*;

verus! {

/// The number of the first page of `tractate`.
pub open spec fn first_page(tractate: Tractate) -> u16 {
    match tractate {
        Tractate::Kinnim => 23,
        Tractate::Tamid => 26,
        Tractate::Midos => 34,
        _ => 2,
    }
}

/// The number of the last page of `tractate` in the cycle numbered
/// `iteration`, for a tractate of the Babylonian Talmud.
pub open spec fn last_page(tractate: Tractate, iteration: int) -> Option<u16> {
    match tractate {
        Tractate::Berachos => Some(64),
        Tractate::Shabbos => Some(157),
        Tractate::Eruvin => Some(105),
        Tractate::Pesachim => Some(121),
        Tractate::Shekalim => if iteration < SHEKALIM_EXPANSION_CYCLE {
            Some(13)
        } else {
            Some(22)
        },
        Tractate::Yoma => Some(88),
        Tractate::Sukkah => Some(56),
        Tractate::Beitzah => Some(40),
        Tractate::RoshHashanah => Some(35),
        Tractate::Taanis => Some(31),
        Tractate::Megillah => Some(32),
        Tractate::MoedKatan => Some(29),
        Tractate::Chagigah => Some(27),
        Tractate::Yevamos => Some(122),
        Tractate::Kesubos => Some(112),
        Tractate::Nedarim => Some(91),
        Tractate::Nazir => Some(66),
        Tractate::Sotah => Some(49),
        Tractate::Gitin => Some(90),
        Tractate::Kiddushin => Some(82),
        Tractate::BavaKamma => Some(119),
        Tractate::BavaMetzia => Some(119),
        Tractate::BavaBasra => Some(176),
        Tractate::Sanhedrin => Some(113),
        Tractate::Makkos => Some(24),
        Tractate::Shevuos => Some(49),
        Tractate::AvodahZarah => Some(76),
        Tractate::Horiyos => Some(14),
        Tractate::Zevachim => Some(120),
        Tractate::Menachos => Some(110),
        Tractate::Chullin => Some(142),
        Tractate::Bechoros => Some(61),
        Tractate::Arachin => Some(34),
        Tractate::Temurah => Some(34),
        Tractate::Kerisos => Some(28),
        Tractate::Meilah => Some(22),
        Tractate::Kinnim => Some(25),
        Tractate::Tamid => Some(33),
        Tractate::Midos => Some(37),
        Tractate::Niddah => Some(73),
        _ => None,
    }
}

/// The page numbers of `tractate` in the cycle numbered `iteration`.
pub open spec fn pages_of(tractate: Tractate, iteration: int) -> Seq<u16> {
    match last_page(tractate, iteration) {
        Some(last) => page_run(first_page(tractate) as int, last as int),
        None => Seq::empty(),
    }
}

/// The pages of the first `count` tractates in the cycle numbered
/// `iteration`, in the order of study.
pub open spec fn daf_prefix(iteration: int, count: nat) -> Seq<Daf>
    decreases count,
{
    if count == 0 {
        Seq::empty()
    } else {
        daf_prefix(iteration, (count - 1) as nat) + dafs_of(
            BAVLI_TRACTATES@[count - 1],
            pages_of(BAVLI_TRACTATES@[count - 1], iteration),
        )
    }
}

/// The pages of the cycle numbered `iteration`, in the order of study.
pub open spec fn daf_sequence(iteration: int) -> Seq<Daf> {
    daf_prefix(iteration, 40)
}

/// The number of days in the cycle numbered `iteration`; a cycle without a
/// number has the length of the early cycles.
pub open spec fn cycle_days(iteration: Option<int>) -> int {
    match iteration {
        Some(i) => if i < SHEKALIM_EXPANSION_CYCLE {
            BAVLI_DAF_COUNT_EARLY as int
        } else {
            BAVLI_DAF_COUNT_MODERN as int
        },
        None => BAVLI_DAF_COUNT_EARLY as int,
    }
}

/// The place in the sequence of pages that `date` has in `cycle`: the
/// number of days from the start of the cycle.
pub open spec fn offset_in_cycle(cycle: CycleView, date: int) -> int {
    date - cycle.start
}

/// A cycle has as many pages as it has days.
pub proof fn lemma_daf_sequence_len(iteration: int)
    ensures
        daf_sequence(iteration).len() == cycle_days(Some(iteration)),
{
    assert(daf_prefix(iteration, 0).len() == 0);
    assert(daf_prefix(iteration, 1).len() == 63);
    assert(daf_prefix(iteration, 2).len() == 219);
    assert(daf_prefix(iteration, 3).len() == 323);
    assert(daf_prefix(iteration, 4).len() == 443);
    assert(daf_prefix(iteration, 5).len() == 455 + (if iteration < SHEKALIM_EXPANSION_CYCLE {
        0int
    } else {
        9int
    }));
    assert(daf_prefix(iteration, 6).len() == 542 + (if iteration < SHEKALIM_EXPANSION_CYCLE {
        0int
    } else {
        9int
    }));
    assert(daf_prefix(iteration, 7).len() == 597 + (if iteration < SHEKALIM_EXPANSION_CYCLE {
        0int
    } else {
        9int
    }));
    assert(daf_prefix(iteration, 8).len() == 636 + (if iteration < SHEKALIM_EXPANSION_CYCLE {
        0int
    } else {
        9int
    }));
    assert(daf_prefix(iteration, 9).len() == 670 + (if iteration < SHEKALIM_EXPANSION_CYCLE {
        0int
    } else {
        9int
    }));
    assert(daf_prefix(iteration, 10).len() == 700 + (if iteration < SHEKALIM_EXPANSION_CYCLE {
        0int
    } else {
        9int
    }));
    assert(daf_prefix(iteration, 11).len() == 731 + (if iteration < SHEKALIM_EXPANSION_CYCLE {
        0int
    } else {
        9int
    }));
    assert(daf_prefix(iteration, 12).len() == 759 + (if iteration < SHEKALIM_EXPANSION_CYCLE {
        0int
    } else {
        9int
    }));
    assert(daf_prefix(iteration, 13).len() == 785 + (if iteration < SHEKALIM_EXPANSION_CYCLE {
        0int
    } else {
        9int
    }));
    assert(daf_prefix(iteration, 14).len() == 906 + (if iteration < SHEKALIM_EXPANSION_CYCLE {
        0int
    } else {
        9int
    }));
    assert(daf_prefix(iteration, 15).len() == 1017 + (if iteration < SHEKALIM_EXPANSION_CYCLE {
        0int
    } else {
        9int
    }));
    assert(daf_prefix(iteration, 16).len() == 1107 + (if iteration < SHEKALIM_EXPANSION_CYCLE {
        0int
    } else {
        9int
    }));
    assert(daf_prefix(iteration, 17).len() == 1172 + (if iteration < SHEKALIM_EXPANSION_CYCLE {
        0int
    } else {
        9int
    }));
    assert(daf_prefix(iteration, 18).len() == 1220 + (if iteration < SHEKALIM_EXPANSION_CYCLE {
        0int
    } else {
        9int
    }));
    assert(daf_prefix(iteration, 19).len() == 1309 + (if iteration < SHEKALIM_EXPANSION_CYCLE {
        0int
    } else {
        9int
    }));
    assert(daf_prefix(iteration, 20).len() == 1390 + (if iteration < SHEKALIM_EXPANSION_CYCLE {
        0int
    } else {
        9int
    }));
    assert(daf_prefix(iteration, 21).len() == 1508 + (if iteration < SHEKALIM_EXPANSION_CYCLE {
        0int
    } else {
        9int
    }));
    assert(daf_prefix(iteration, 22).len() == 1626 + (if iteration < SHEKALIM_EXPANSION_CYCLE {
        0int
    } else {
        9int
    }));
    assert(daf_prefix(iteration, 23).len() == 1801 + (if iteration < SHEKALIM_EXPANSION_CYCLE {
        0int
    } else {
        9int
    }));
    assert(daf_prefix(iteration, 24).len() == 1913 + (if iteration < SHEKALIM_EXPANSION_CYCLE {
        0int
    } else {
        9int
    }));
    assert(daf_prefix(iteration, 25).len() == 1936 + (if iteration < SHEKALIM_EXPANSION_CYCLE {
        0int
    } else {
        9int
    }));
    assert(daf_prefix(iteration, 26).len() == 1984 + (if iteration < SHEKALIM_EXPANSION_CYCLE {
        0int
    } else {
        9int
    }));
    assert(daf_prefix(iteration, 27).len() == 2059 + (if iteration < SHEKALIM_EXPANSION_CYCLE {
        0int
    } else {
        9int
    }));
    assert(daf_prefix(iteration, 28).len() == 2072 + (if iteration < SHEKALIM_EXPANSION_CYCLE {
        0int
    } else {
        9int
    }));
    assert(daf_prefix(iteration, 29).len() == 2191 + (if iteration < SHEKALIM_EXPANSION_CYCLE {
        0int
    } else {
        9int
    }));
    assert(daf_prefix(iteration, 30).len() == 2300 + (if iteration < SHEKALIM_EXPANSION_CYCLE {
        0int
    } else {
        9int
    }));
    assert(daf_prefix(iteration, 31).len() == 2441 + (if iteration < SHEKALIM_EXPANSION_CYCLE {
        0int
    } else {
        9int
    }));
    assert(daf_prefix(iteration, 32).len() == 2501 + (if iteration < SHEKALIM_EXPANSION_CYCLE {
        0int
    } else {
        9int
    }));
    assert(daf_prefix(iteration, 33).len() == 2534 + (if iteration < SHEKALIM_EXPANSION_CYCLE {
        0int
    } else {
        9int
    }));
    assert(daf_prefix(iteration, 34).len() == 2567 + (if iteration < SHEKALIM_EXPANSION_CYCLE {
        0int
    } else {
        9int
    }));
    assert(daf_prefix(iteration, 35).len() == 2594 + (if iteration < SHEKALIM_EXPANSION_CYCLE {
        0int
    } else {
        9int
    }));
    assert(daf_prefix(iteration, 36).len() == 2615 + (if iteration < SHEKALIM_EXPANSION_CYCLE {
        0int
    } else {
        9int
    }));
    assert(daf_prefix(iteration, 37).len() == 2618 + (if iteration < SHEKALIM_EXPANSION_CYCLE {
        0int
    } else {
        9int
    }));
    assert(daf_prefix(iteration, 38).len() == 2626 + (if iteration < SHEKALIM_EXPANSION_CYCLE {
        0int
    } else {
        9int
    }));
    assert(daf_prefix(iteration, 39).len() == 2630 + (if iteration < SHEKALIM_EXPANSION_CYCLE {
        0int
    } else {
        9int
    }));
    assert(daf_prefix(iteration, 40).len() == 2702 + (if iteration < SHEKALIM_EXPANSION_CYCLE {
        0int
    } else {
        9int
    }));
}

/// From one day to the next, the place in the sequence of pages goes up
/// by one.
pub proof fn lemma_offset_step(cycle: CycleView, date: int)
    ensures
        offset_in_cycle(cycle, date + 1) == offset_in_cycle(cycle, date) + 1,
{
}

/// The page of a date is the page whose place in the sequence of its cycle
/// is the number of days from the start of the cycle to the date: every
/// date in a cycle has a page.
pub proof fn lemma_unit_of_day(policy: DafYomiBavli, date: int, cycle: CycleView)
    requires
        cycle_of(policy, date) == Ok::<CycleView, ResolveError>(cycle),
    ensures
        cycle.iteration.is_some(),
        0 <= date - cycle.start < daf_sequence(cycle.iteration.unwrap()).len(),
        unit_of(policy, date) == Ok::<Daf, ResolveError>(
            daf_sequence(cycle.iteration.unwrap())[date - cycle.start],
        ),
{
    lemma_counted_cycle_holds_date(policy, date);
    lemma_daf_sequence_len(cycle.iteration.unwrap());
    lemma_single_day_interval(policy, date, cycle);
}

/// On the last day of a cycle the last page of the cycle is studied, and
/// on the first day of a cycle its first page; a cycle has as many days as
/// it has pages.
pub proof fn lemma_cycle_boundaries(policy: DafYomiBavli, date: int, cycle: CycleView)
    requires
        cycle_of(policy, date) == Ok::<CycleView, ResolveError>(cycle),
    ensures
        cycle.iteration.is_some(),
        daf_sequence(cycle.iteration.unwrap()).len() == cycle.end - cycle.start + 1,
        date == cycle.start ==> unit_of(policy, date) == Ok::<Daf, ResolveError>(
            daf_sequence(cycle.iteration.unwrap()).first(),
        ),
        date == cycle.end ==> unit_of(policy, date) == Ok::<Daf, ResolveError>(
            daf_sequence(cycle.iteration.unwrap()).last(),
        ),
{
    lemma_counted_cycle_holds_date(policy, date);
    lemma_daf_sequence_len(cycle.iteration.unwrap());
    lemma_unit_of_day(policy, date, cycle);
}

/// On the day after a cycle ends, the first page of the next cycle is
/// studied: the first page of a sequence that is longer where the next
/// cycle is the first of the longer cycles.
pub proof fn lemma_day_after_last(
    policy: DafYomiBavli,
    date: int,
    cycle: CycleView,
    next: CycleView,
)
    requires
        cycle_of(policy, date) == Ok::<CycleView, ResolveError>(cycle),
        next_cycle::<Daf, DafYomiBavli>(cycle) == Ok::<CycleView, ResolveError>(next),
    ensures
        cycle.iteration.is_some(),
        next.iteration == Some(cycle.iteration.unwrap() + 1),
        next.start == cycle.end + 1,
        daf_sequence(cycle.iteration.unwrap() + 1).len() == next.end - next.start + 1,
        unit_of(policy, cycle.end + 1) == Ok::<Daf, ResolveError>(
            daf_sequence(cycle.iteration.unwrap() + 1).first(),
        ),
{
    lemma_counted_cycle_holds_date(policy, date);
    lemma_day_after_cycle(policy, date, cycle, next);
    lemma_cycle_boundaries(policy, cycle.end + 1, next);
}

/// The number of the first page of `tractate`.
pub fn start_daf(tractate: Tractate, _iteration: i32) -> (r: u16)
    ensures
        r == first_page(tractate),
{
    match tractate {
        Tractate::Kinnim => 23,
        Tractate::Tamid => 26,
        Tractate::Midos => 34,
        _ => 2,
    }
}

/// The number of the last page of `tractate` in the cycle numbered
/// `iteration`, or nothing for a tractate that the Babylonian Talmud lacks.
pub fn end_daf(tractate: Tractate, iteration: i32) -> (r: Option<u16>)
    ensures
        r == last_page(tractate, iteration as int),
{
    match tractate {
        Tractate::Berachos => Some(64),
        Tractate::Shabbos => Some(157),
        Tractate::Eruvin => Some(105),
        Tractate::Pesachim => Some(121),
        Tractate::Shekalim => if iteration < SHEKALIM_EXPANSION_CYCLE {
            Some(13)
        } else {
            Some(22)
        },
        Tractate::Yoma => Some(88),
        Tractate::Sukkah => Some(56),
        Tractate::Beitzah => Some(40),
        Tractate::RoshHashanah => Some(35),
        Tractate::Taanis => Some(31),
        Tractate::Megillah => Some(32),
        Tractate::MoedKatan => Some(29),
        Tractate::Chagigah => Some(27),
        Tractate::Yevamos => Some(122),
        Tractate::Kesubos => Some(112),
        Tractate::Nedarim => Some(91),
        Tractate::Nazir => Some(66),
        Tractate::Sotah => Some(49),
        Tractate::Gitin => Some(90),
        Tractate::Kiddushin => Some(82),
        Tractate::BavaKamma => Some(119),
        Tractate::BavaMetzia => Some(119),
        Tractate::BavaBasra => Some(176),
        Tractate::Sanhedrin => Some(113),
        Tractate::Makkos => Some(24),
        Tractate::Shevuos => Some(49),
        Tractate::AvodahZarah => Some(76),
        Tractate::Horiyos => Some(14),
        Tractate::Zevachim => Some(120),
        Tractate::Menachos => Some(110),
        Tractate::Chullin => Some(142),
        Tractate::Bechoros => Some(61),
        Tractate::Arachin => Some(34),
        Tractate::Temurah => Some(34),
        Tractate::Kerisos => Some(28),
        Tractate::Meilah => Some(22),
        Tractate::Kinnim => Some(25),
        Tractate::Tamid => Some(33),
        Tractate::Midos => Some(37),
        Tractate::Niddah => Some(73),
        _ => None,
    }
}

/// The page numbers of `tractate` in the cycle numbered `iteration`.
pub fn iter(tractate: Tractate, iteration: i32) -> (r: Vec<u16>)
    ensures
        r@ == pages_of(tractate, iteration as int),
{
    match end_daf(tractate, iteration) {
        Some(end) => pages_between(start_daf(tractate, iteration), end),
        None => Vec::new(),
    }
}

/// The pages of the cycle numbered `iteration`, in the order of study.
pub fn iter_daf(iteration: i32) -> (r: Vec<Daf>)
    ensures
        r@ == daf_sequence(iteration as int),
{
    let mut dafs: Vec<Daf> = Vec::new();
    let mut i: usize = 0;
    while i < 40
        invariant
            i <= 40,
            dafs@ == daf_prefix(iteration as int, i as nat),
        decreases 40 - i,
    {
        let tractate = BAVLI_TRACTATES[i];
        let pages = iter(tractate, iteration);
        push_dafs(&mut dafs, tractate, &pages);
        i = i + 1;
    }
    dafs
}

/// The daily page of the Babylonian Talmud: one page a day, in cycles that
/// follow each other from 11 September 1923.
#[derive(Default)]
pub struct DafYomiBavli {}

impl SchedulePolicy<Daf> for DafYomiBavli {
    open spec fn anchor(&self) -> Option<int> {
        Some(DAF_YOMI_BAVLI_START as int)
    }

    open spec fn perpetual_cycle_rule(&self, date: int) -> Option<(int, int)> {
        None
    }

    open spec fn cycle_end_rule(start: int, iteration: Option<int>) -> Option<int> {
        day_plus(start, cycle_days(iteration) - 1)
    }

    open spec fn interval_end_rule(cycle: CycleView, start: int) -> Option<int> {
        Some(start)
    }

    open spec fn skip_rule(&self, interval: IntervalView) -> bool {
        false
    }

    open spec fn unit_rule(&self, interval: IntervalView, date: int) -> Option<Daf> {
        match interval.cycle.iteration {
            Some(iteration) => item_at(
                daf_sequence(iteration),
                offset_in_cycle(interval.cycle, date),
            ),
            None => None,
        }
    }

    proof fn lemma_cycle_end_rule(start: int, iteration: Option<int>) {
    }

    proof fn lemma_interval_end_rule(cycle: CycleView, start: int) {
    }

    fn cycle_finder(&self) -> (r: CycleFinder) {
        CycleFinder::Initial(HebrewDate::on_day(DAF_YOMI_BAVLI_START))
    }

    fn perpetual_cycle(&self, date: HebrewDate) -> (r: Option<(HebrewDate, HebrewDate)>) {
        None
    }

    fn cycle_end_calculation(hebrew_date: HebrewDate, iteration: Option<i32>) -> (r: Option<
        HebrewDate,
    >) {
        let days = match iteration {
            Some(i) => if i < SHEKALIM_EXPANSION_CYCLE {
                BAVLI_DAF_COUNT_EARLY
            } else {
                BAVLI_DAF_COUNT_MODERN
            },
            None => BAVLI_DAF_COUNT_EARLY,
        };
        hebrew_date.add_days(days - 1)
    }

    fn interval_end_calculation(cycle: Cycle, hebrew_date: HebrewDate) -> (r: Option<HebrewDate>) {
        Some(hebrew_date)
    }

    fn is_skip_interval(&self, interval: &Interval) -> (b: bool) {
        false
    }

    fn unit_for_interval(&self, interval: &Interval, limud_date: &HebrewDate) -> (r: Option<Daf>) {
        let cycle_iteration = match interval.cycle.iteration {
            Some(iteration) => iteration,
            None => {
                return None;
            },
        };
        let dafs = iter_daf(cycle_iteration);
        let offset = interval.cycle.start_date.days_until(limud_date);
        nth(&dafs, offset)
    }
}

impl LimudCalculator<Daf> for DafYomiBavli {
}

} // verus!
