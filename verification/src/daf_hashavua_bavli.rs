//! The weekly page of the Babylonian Talmud.

use crate::constants::{BAVLI_DAF_COUNT_MODERN, DAF_HASHAVUA_BAVLI_START};
use crate::cycle::{Cycle, CycleView};
use crate::date::{day_plus, saturday_from, week_end, weekday_number_of_day, HebrewDate};
use crate::interval::{Interval, IntervalView};
use crate::limud_calculator::{
    cycle_of,
    unit_of,
    CycleFinder,
    LimudCalculator,
    ResolveError,
    SchedulePolicy,
};
use crate::theorems::{lemma_counted_cycle_holds_date, lemma_weekly_interval};
use crate::units::{
    dafs_of,
    item_at,
    nth,
    page_run,
    pages_between,
    push_dafs,
    Daf,
    Tractate,
    BAVLI_TRACTATES,
};
use vstd::prelude::*;

verus! {

/// The number of the first page of `tractate`.
pub open spec fn first_page(tractate: Tractate) -> u16 {
    match tractate {
        Tractate::Kinnim => 23,
        Tractate::Tamid => 26,
        Tractate::Midos => 34,
        _ => 2,
    }
}

/// The number of the last page of `tractate`, for a tractate of the
/// Babylonian Talmud.
pub open spec fn last_page(tractate: Tractate) -> Option<u16> {
    match tractate {
        Tractate::Berachos => Some(64),
        Tractate::Shabbos => Some(157),
        Tractate::Eruvin => Some(105),
        Tractate::Pesachim => Some(121),
        Tractate::Shekalim => Some(22),
        Tractate::Yoma => Some(88),
        Tractate::Sukkah => Some(56),
        Tractate::Beitzah => Some(40),
        Tractate::RoshHashanah => Some(35),
        Tractate::Taanis => Some(31),
        Tractate::Megillah => Some(32),
        Tractate::MoedKatan => Some(29),
        Tractate::Chagigah => Some(27),
        Tractate::Yevamos => Some(122),
        Tractate::Kesubos => Some(112),
        Tractate::Nedarim => Some(91),
        Tractate::Nazir => Some(66),
        Tractate::Sotah => Some(49),
        Tractate::Gitin => Some(90),
        Tractate::Kiddushin => Some(82),
        Tractate::BavaKamma => Some(119),
        Tractate::BavaMetzia => Some(119),
        Tractate::BavaBasra => Some(176),
        Tractate::Sanhedrin => Some(113),
        Tractate::Makkos => Some(24),
        Tractate::Shevuos => Some(49),
        Tractate::AvodahZarah => Some(76),
        Tractate::Horiyos => Some(14),
        Tractate::Zevachim => Some(120),
        Tractate::Menachos => Some(110),
        Tractate::Chullin => Some(142),
        Tractate::Bechoros => Some(61),
        Tractate::Arachin => Some(34),
        Tractate::Temurah => Some(34),
        Tractate::Kerisos => Some(28),
        Tractate::Meilah => Some(22),
        Tractate::Kinnim => Some(25),
        Tractate::Tamid => Some(33),
        Tractate::Midos => Some(37),
        Tractate::Niddah => Some(73),
        _ => None,
    }
}

/// The page numbers of `tractate`.
pub open spec fn pages_of(tractate: Tractate) -> Seq<u16> {
    match last_page(tractate) {
        Some(last) => page_run(first_page(tractate) as int, last as int),
        None => Seq::empty(),
    }
}

/// The pages of the first `count` tractates, in the order of study.
pub open spec fn daf_prefix(count: nat) -> Seq<Daf>
    decreases count,
{
    if count == 0 {
        Seq::empty()
    } else {
        daf_prefix((count - 1) as nat) + dafs_of(
            BAVLI_TRACTATES@[count - 1],
            pages_of(BAVLI_TRACTATES@[count - 1]),
        )
    }
}

/// The pages of a cycle, in the order of study.
pub open spec fn daf_sequence() -> Seq<Daf> {
    daf_prefix(40)
}

/// A cycle has 2711 pages.
pub proof fn lemma_daf_sequence_len()
    ensures
        daf_sequence().len() == BAVLI_DAF_COUNT_MODERN,
{
    assert(daf_prefix(0).len() == 0);
    assert(daf_prefix(1).len() == 63);
    assert(daf_prefix(2).len() == 219);
    assert(daf_prefix(3).len() == 323);
    assert(daf_prefix(4).len() == 443);
    assert(daf_prefix(5).len() == 464);
    assert(daf_prefix(6).len() == 551);
    assert(daf_prefix(7).len() == 606);
    assert(daf_prefix(8).len() == 645);
    assert(daf_prefix(9).len() == 679);
    assert(daf_prefix(10).len() == 709);
    assert(daf_prefix(11).len() == 740);
    assert(daf_prefix(12).len() == 768);
    assert(daf_prefix(13).len() == 794);
    assert(daf_prefix(14).len() == 915);
    assert(daf_prefix(15).len() == 1026);
    assert(daf_prefix(16).len() == 1116);
    assert(daf_prefix(17).len() == 1181);
    assert(daf_prefix(18).len() == 1229);
    assert(daf_prefix(19).len() == 1318);
    assert(daf_prefix(20).len() == 1399);
    assert(daf_prefix(21).len() == 1517);
    assert(daf_prefix(22).len() == 1635);
    assert(daf_prefix(23).len() == 1810);
    assert(daf_prefix(24).len() == 1922);
    assert(daf_prefix(25).len() == 1945);
    assert(daf_prefix(26).len() == 1993);
    assert(daf_prefix(27).len() == 2068);
    assert(daf_prefix(28).len() == 2081);
    assert(daf_prefix(29).len() == 2200);
    assert(daf_prefix(30).len() == 2309);
    assert(daf_prefix(31).len() == 2450);
    assert(daf_prefix(32).len() == 2510);
    assert(daf_prefix(33).len() == 2543);
    assert(daf_prefix(34).len() == 2576);
    assert(daf_prefix(35).len() == 2603);
    assert(daf_prefix(36).len() == 2624);
    assert(daf_prefix(37).len() == 2627);
    assert(daf_prefix(38).len() == 2635);
    assert(daf_prefix(39).len() == 2639);
    assert(daf_prefix(40).len() == 2711);
}

/// The place in the sequence of pages that the week of `date` has in
/// `cycle`: the number of Saturdays from the start of the cycle up to the
/// week of `date`, that week not counted.
pub open spec fn offset_in_cycle(cycle: CycleView, date: int) -> int {
    (saturday_from(date) - saturday_from(cycle.start)) / 7
}

/// From one week to the next, the place in the sequence of pages goes up
/// by one.
pub proof fn lemma_offset_step(cycle: CycleView, date: int)
    ensures
        offset_in_cycle(cycle, date + 7) == offset_in_cycle(cycle, date) + 1,
{
}

/// The page of a date is the page whose place in the sequence is the
/// number of weeks that ended in the cycle before the week of the date:
/// every date in a cycle has a page.
pub proof fn lemma_unit_of_day(policy: DafHashavuaBavli, date: int, cycle: CycleView)
    requires
        cycle_of(policy, date) == Ok::<CycleView, ResolveError>(cycle),
    ensures
        0 <= offset_in_cycle(cycle, date) < daf_sequence().len(),
        unit_of(policy, date) == Ok::<Daf, ResolveError>(
            daf_sequence()[offset_in_cycle(cycle, date)],
        ),
{
    lemma_counted_cycle_holds_date(policy, date);
    lemma_daf_sequence_len();
    lemma_weekly_interval(policy, date, cycle);
}

/// In the first week of a cycle the first page is studied, and in its last
/// week the last page.
pub proof fn lemma_cycle_boundaries(policy: DafHashavuaBavli, date: int, cycle: CycleView)
    requires
        cycle_of(policy, date) == Ok::<CycleView, ResolveError>(cycle),
    ensures
        date == cycle.start ==> unit_of(policy, date) == Ok::<Daf, ResolveError>(
            daf_sequence().first(),
        ),
        date == cycle.end ==> unit_of(policy, date) == Ok::<Daf, ResolveError>(
            daf_sequence().last(),
        ),
{
    lemma_counted_cycle_holds_date(policy, date);
    lemma_daf_sequence_len();
    lemma_unit_of_day(policy, date, cycle);
}

/// The number of the first page of `tractate`.
pub fn start_daf(tractate: Tractate, _iteration: i32) -> (r: u16)
    ensures
        r == first_page(tractate),
{
    match tractate {
        Tractate::Kinnim => 23,
        Tractate::Tamid => 26,
        Tractate::Midos => 34,
        _ => 2,
    }
}

/// The number of the last page of `tractate`, or nothing for a tractate
/// that the Babylonian Talmud lacks.
pub fn end_daf(tractate: Tractate, _iteration: i32) -> (r: Option<u16>)
    ensures
        r == last_page(tractate),
{
    match tractate {
        Tractate::Berachos => Some(64),
        Tractate::Shabbos => Some(157),
        Tractate::Eruvin => Some(105),
        Tractate::Pesachim => Some(121),
        Tractate::Shekalim => Some(22),
        Tractate::Yoma => Some(88),
        Tractate::Sukkah => Some(56),
        Tractate::Beitzah => Some(40),
        Tractate::RoshHashanah => Some(35),
        Tractate::Taanis => Some(31),
        Tractate::Megillah => Some(32),
        Tractate::MoedKatan => Some(29),
        Tractate::Chagigah => Some(27),
        Tractate::Yevamos => Some(122),
        Tractate::Kesubos => Some(112),
        Tractate::Nedarim => Some(91),
        Tractate::Nazir => Some(66),
        Tractate::Sotah => Some(49),
        Tractate::Gitin => Some(90),
        Tractate::Kiddushin => Some(82),
        Tractate::BavaKamma => Some(119),
        Tractate::BavaMetzia => Some(119),
        Tractate::BavaBasra => Some(176),
        Tractate::Sanhedrin => Some(113),
        Tractate::Makkos => Some(24),
        Tractate::Shevuos => Some(49),
        Tractate::AvodahZarah => Some(76),
        Tractate::Horiyos => Some(14),
        Tractate::Zevachim => Some(120),
        Tractate::Menachos => Some(110),
        Tractate::Chullin => Some(142),
        Tractate::Bechoros => Some(61),
        Tractate::Arachin => Some(34),
        Tractate::Temurah => Some(34),
        Tractate::Kerisos => Some(28),
        Tractate::Meilah => Some(22),
        Tractate::Kinnim => Some(25),
        Tractate::Tamid => Some(33),
        Tractate::Midos => Some(37),
        Tractate::Niddah => Some(73),
        _ => None,
    }
}

/// The page numbers of `tractate`.
pub fn iter(tractate: Tractate, iteration: i32) -> (r: Vec<u16>)
    ensures
        r@ == pages_of(tractate),
{
    match end_daf(tractate, iteration) {
        Some(end) => pages_between(start_daf(tractate, iteration), end),
        None => Vec::new(),
    }
}

/// The pages of a cycle, in the order of study.
pub fn iter_daf(iteration: i32) -> (r: Vec<Daf>)
    ensures
        r@ == daf_sequence(),
{
    let mut dafs: Vec<Daf> = Vec::new();
    let mut i: usize = 0;
    while i < 40
        invariant
            i <= 40,
            dafs@ == daf_prefix(i as nat),
        decreases 40 - i,
    {
        let tractate = BAVLI_TRACTATES[i];
        let pages = iter(tractate, iteration);
        push_dafs(&mut dafs, tractate, &pages);
        i = i + 1;
    }
    dafs
}

/// The weekly page of the Babylonian Talmud: one page a week, each week
/// ending on its Saturday, in cycles that follow each other from
/// 6 March 2005.
#[derive(Default)]
pub struct DafHashavuaBavli {}

impl SchedulePolicy<Daf> for DafHashavuaBavli {
    open spec fn anchor(&self) -> Option<int> {
        Some(DAF_HASHAVUA_BAVLI_START as int)
    }

    open spec fn perpetual_cycle_rule(&self, date: int) -> Option<(int, int)> {
        None
    }

    open spec fn cycle_end_rule(start: int, iteration: Option<int>) -> Option<int> {
        day_plus(start, BAVLI_DAF_COUNT_MODERN * 7 - weekday_number_of_day(start))
    }

    open spec fn interval_end_rule(cycle: CycleView, start: int) -> Option<int> {
        week_end(start)
    }

    open spec fn skip_rule(&self, interval: IntervalView) -> bool {
        false
    }

    open spec fn unit_rule(&self, interval: IntervalView, date: int) -> Option<Daf> {
        if interval.cycle.iteration.is_some() {
            item_at(daf_sequence(), interval.iteration - 1)
        } else {
            None
        }
    }

    proof fn lemma_cycle_end_rule(start: int, iteration: Option<int>) {
    }

    proof fn lemma_interval_end_rule(cycle: CycleView, start: int) {
    }

    fn cycle_finder(&self) -> (r: CycleFinder) {
        CycleFinder::Initial(HebrewDate::on_day(DAF_HASHAVUA_BAVLI_START))
    }

    fn perpetual_cycle(&self, date: HebrewDate) -> (r: Option<(HebrewDate, HebrewDate)>) {
        None
    }

    fn cycle_end_calculation(hebrew_date: HebrewDate, _iteration: Option<i32>) -> (r: Option<
        HebrewDate,
    >) {
        let day_number = hebrew_date.day_of_week_number();
        hebrew_date.add_days((BAVLI_DAF_COUNT_MODERN * 7) - day_number)
    }

    fn interval_end_calculation(_cycle: Cycle, hebrew_date: HebrewDate) -> (r: Option<HebrewDate>) {
        let day_number = hebrew_date.day_of_week_number();
        hebrew_date.add_days(7 - day_number)
    }

    fn is_skip_interval(&self, interval: &Interval) -> (b: bool) {
        false
    }

    fn unit_for_interval(&self, interval: &Interval, _limud_date: &HebrewDate) -> (r: Option<Daf>) {
        let cycle_iteration = match interval.cycle.iteration {
            Some(iteration) => iteration,
            None => {
                return None;
            },
        };
        let dafs = iter_daf(cycle_iteration);
        nth(&dafs, interval.iteration as i64 - 1)
    }
}

impl LimudCalculator<Daf> for DafHashavuaBavli {
}

} // verus!
