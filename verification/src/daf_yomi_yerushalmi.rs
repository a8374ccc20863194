//! The daily page of the Jerusalem Talmud, which rests on two fast days.

use crate::constants::{DAF_YOMI_YERUSHALMI_START, YERUSHALMI_DAF_COUNT};
use crate::cycle::{Cycle, CycleView};
use crate::date::{day_in_range, days_left, HebrewDate, MAX_DAY_NUMBER};
use crate::holidays::{is_fast_day, is_fast_day_number};
use crate::interval::{Interval, IntervalView};
use crate::limud_calculator::{
    cycle_of,
    unit_of,
    CycleFinder,
    LimudCalculator,
    ResolveError,
    SchedulePolicy,
};
use crate::theorems::{lemma_counted_cycle_holds_date, lemma_single_day_interval};
use crate::units::{
    dafs_of,
    item_at,
    nth,
    page_run,
    pages_between,
    push_dafs,
    Daf,
    Tractate,
    YERUSHALMI_TRACTATES,
};
use vstd::prelude::*;

verus! {

/// The number of the last page of `tractate`, for a tractate of the
/// Jerusalem Talmud.
pub open spec fn last_page(tractate: Tractate) -> Option<u16> {
    match tractate {
        Tractate::Berachos => Some(68),
        Tractate::Peah => Some(37),
        Tractate::Demai => Some(34),
        Tractate::Kilayim => Some(44),
        Tractate::Sheviis => Some(31),
        Tractate::Terumos => Some(59),
        Tractate::Maasros => Some(26),
        Tractate::MaaserSheni => Some(33),
        Tractate::Chalah => Some(28),
        Tractate::Orlah => Some(20),
        Tractate::Bikurim => Some(13),
        Tractate::Shabbos => Some(92),
        Tractate::Eruvin => Some(65),
        Tractate::Pesachim => Some(71),
        Tractate::Beitzah => Some(22),
        Tractate::RoshHashanah => Some(22),
        Tractate::Yoma => Some(42),
        Tractate::Sukkah => Some(26),
        Tractate::Taanis => Some(26),
        Tractate::Shekalim => Some(33),
        Tractate::Megillah => Some(34),
        Tractate::Chagigah => Some(22),
        Tractate::MoedKatan => Some(19),
        Tractate::Yevamos => Some(85),
        Tractate::Kesubos => Some(72),
        Tractate::Sotah => Some(47),
        Tractate::Nedarim => Some(40),
        Tractate::Nazir => Some(47),
        Tractate::Gitin => Some(54),
        Tractate::Kiddushin => Some(48),
        Tractate::BavaKamma => Some(44),
        Tractate::BavaMetzia => Some(37),
        Tractate::BavaBasra => Some(34),
        Tractate::Sanhedrin => Some(57),
        Tractate::Makkos => Some(9),
        Tractate::Shevuos => Some(44),
        Tractate::AvodahZarah => Some(37),
        Tractate::Horiyos => Some(19),
        Tractate::Niddah => Some(13),
        _ => None,
    }
}

/// The page numbers of `tractate`, which start at 1.
pub open spec fn pages_of(tractate: Tractate) -> Seq<u16> {
    match last_page(tractate) {
        Some(last) => page_run(1, last as int),
        None => Seq::empty(),
    }
}

/// The pages of the first `count` tractates, in the order of study.
pub open spec fn daf_prefix(count: nat) -> Seq<Daf>
    decreases count,
{
    if count == 0 {
        Seq::empty()
    } else {
        daf_prefix((count - 1) as nat) + dafs_of(
            YERUSHALMI_TRACTATES@[count - 1],
            pages_of(YERUSHALMI_TRACTATES@[count - 1]),
        )
    }
}

/// The pages of a cycle, in the order of study.
pub open spec fn daf_sequence() -> Seq<Daf> {
    daf_prefix(39)
}

/// The number of fast days among the days after `from` up to `to`, `to`
/// included and `from` not.
pub open spec fn skips_between(from: int, to: int) -> int
    decreases days_left(from, to),
{
    if to <= from {
        0
    } else {
        skips_between(from, to - 1) + (if is_fast_day_number(to) {
            1int
        } else {
            0int
        })
    }
}

/// The number of fast days from the day numbered `first` to the one
/// numbered `last`, both included.
pub open spec fn fast_days_in(first: int, last: int) -> int {
    skips_between(first - 1, last)
}

/// The number of days on which a page is studied from the day numbered
/// `first` to the one numbered `last`, both included: the days among them
/// that are no fast days.
pub open spec fn study_days_in(first: int, last: int) -> int {
    last - first + 1 - fast_days_in(first, last)
}

/// Whether a cycle that starts on `start` ends on `end`: `end` is a day in
/// the range of dates on which a page is studied, and with it the cycle
/// has as many days of study as it has pages. It is the earliest day to
/// which the cycle has a day of study for each page, and the only day of
/// which this predicate holds.
pub open spec fn is_cycle_end(start: int, end: int) -> bool {
    start <= end && day_in_range(end) && !is_fast_day_number(end) && study_days_in(start, end)
        == YERUSHALMI_DAF_COUNT
}

/// The last day of the cycle that starts on `start`, or nothing where the
/// range of dates ends before the cycle does.
pub open spec fn cycle_end(start: int) -> Option<int> {
    if exists|end: int| is_cycle_end(start, end) {
        Some(choose|end: int| is_cycle_end(start, end))
    } else {
        None
    }
}

/// The place in the sequence of pages that `date` has in `cycle`: the
/// number of days from the start of the cycle, less the fast days among
/// them, the first day of the cycle counted where it is one.
pub open spec fn offset_in_cycle(cycle: CycleView, date: int) -> int {
    date - cycle.start - fast_days_in(cycle.start, date)
}

/// The count of fast days in a span of days is at least 0 and at most the
/// number of days in the span.
pub proof fn lemma_skips_between_bounds(from: int, to: int)
    ensures
        0 <= skips_between(from, to) <= days_left(from, to),
    decreases days_left(from, to),
{
    if to > from {
        lemma_skips_between_bounds(from, to - 1);
    }
}

/// The fast days of a span are those of its two parts.
pub proof fn lemma_skips_between_split(from: int, middle: int, to: int)
    requires
        from <= middle <= to,
    ensures
        skips_between(from, to) == skips_between(from, middle) + skips_between(middle, to),
    decreases days_left(middle, to),
{
    if to > middle {
        lemma_skips_between_split(from, middle, to - 1);
    }
}

/// From a day to a later one, the days of study go up by no less than 0
/// and by no more than the days between the two.
pub proof fn lemma_study_days_grow(first: int, earlier: int, later: int)
    requires
        first - 1 <= earlier <= later,
    ensures
        0 <= study_days_in(first, later) - study_days_in(first, earlier) <= later - earlier,
{
    lemma_skips_between_split(first - 1, earlier, later);
    lemma_skips_between_bounds(earlier, later);
}

/// From one day to a later one, the place in the sequence of pages never
/// goes down.
pub proof fn lemma_offset_never_falls(cycle: CycleView, earlier: int, later: int)
    requires
        cycle.start - 1 <= earlier <= later,
    ensures
        offset_in_cycle(cycle, earlier) <= offset_in_cycle(cycle, later),
{
    lemma_study_days_grow(cycle.start, earlier, later);
}

/// A span of days without a fast day does not end on one.
pub proof fn lemma_no_fast_day_at_the_end(from: int, to: int)
    requires
        from < to,
        skips_between(from, to) == 0,
    ensures
        !is_fast_day_number(to),
{
    lemma_skips_between_bounds(from, to - 1);
}

/// A cycle has no day of study for each page before its last day: before
/// that day the days of study are fewer than the pages.
pub proof fn lemma_cycle_end_is_earliest(start: int, end: int, earlier: int)
    requires
        is_cycle_end(start, end),
        start - 1 <= earlier < end,
    ensures
        study_days_in(start, earlier) < YERUSHALMI_DAF_COUNT,
{
    lemma_study_days_grow(start, earlier, end - 1);
}

/// A cycle ends on one day only.
pub proof fn lemma_cycle_end_is_unique(start: int, one: int, other: int)
    requires
        is_cycle_end(start, one),
        is_cycle_end(start, other),
    ensures
        one == other,
{
    if one < other {
        lemma_cycle_end_is_earliest(start, other, one);
    } else if other < one {
        lemma_cycle_end_is_earliest(start, one, other);
    }
}

/// The last day of a cycle is the day that ends it, and no day ends a
/// cycle that has no last day.
pub proof fn lemma_cycle_end(start: int, end: int)
    ensures
        is_cycle_end(start, end) <==> cycle_end(start) == Some(end),
{
    if is_cycle_end(start, end) {
        let chosen = choose|end: int| is_cycle_end(start, end);
        lemma_cycle_end_is_unique(start, end, chosen);
    }
}

/// A cycle that lacks `missing` days of study on the day numbered `so_far`
/// ends no earlier than that many days later.
pub proof fn lemma_cycle_end_is_later(start: int, so_far: int, missing: int, end: int)
    requires
        start - 1 <= so_far,
        0 < missing,
        study_days_in(start, so_far) + missing == YERUSHALMI_DAF_COUNT,
        is_cycle_end(start, end),
    ensures
        so_far + missing <= end,
{
    if end < so_far {
        lemma_study_days_grow(start, end, so_far);
    } else {
        lemma_study_days_grow(start, so_far, end);
    }
}

/// A cycle has 1554 pages.
pub proof fn lemma_daf_sequence_len()
    ensures
        daf_sequence().len() == YERUSHALMI_DAF_COUNT,
{
    assert(daf_prefix(0).len() == 0);
    assert(daf_prefix(1).len() == 68);
    assert(daf_prefix(2).len() == 105);
    assert(daf_prefix(3).len() == 139);
    assert(daf_prefix(4).len() == 183);
    assert(daf_prefix(5).len() == 214);
    assert(daf_prefix(6).len() == 273);
    assert(daf_prefix(7).len() == 299);
    assert(daf_prefix(8).len() == 332);
    assert(daf_prefix(9).len() == 360);
    assert(daf_prefix(10).len() == 380);
    assert(daf_prefix(11).len() == 393);
    assert(daf_prefix(12).len() == 485);
    assert(daf_prefix(13).len() == 550);
    assert(daf_prefix(14).len() == 621);
    assert(daf_prefix(15).len() == 643);
    assert(daf_prefix(16).len() == 665);
    assert(daf_prefix(17).len() == 707);
    assert(daf_prefix(18).len() == 733);
    assert(daf_prefix(19).len() == 759);
    assert(daf_prefix(20).len() == 792);
    assert(daf_prefix(21).len() == 826);
    assert(daf_prefix(22).len() == 848);
    assert(daf_prefix(23).len() == 867);
    assert(daf_prefix(24).len() == 952);
    assert(daf_prefix(25).len() == 1024);
    assert(daf_prefix(26).len() == 1071);
    assert(daf_prefix(27).len() == 1111);
    assert(daf_prefix(28).len() == 1158);
    assert(daf_prefix(29).len() == 1212);
    assert(daf_prefix(30).len() == 1260);
    assert(daf_prefix(31).len() == 1304);
    assert(daf_prefix(32).len() == 1341);
    assert(daf_prefix(33).len() == 1375);
    assert(daf_prefix(34).len() == 1419);
    assert(daf_prefix(35).len() == 1428);
    assert(daf_prefix(36).len() == 1485);
    assert(daf_prefix(37).len() == 1522);
    assert(daf_prefix(38).len() == 1541);
    assert(daf_prefix(39).len() == 1554);
}

/// From one day to the next, the place in the sequence of pages goes up
/// by one, unless the next day is a fast day: then it stays, so that the
/// day after the fast takes the page that the fast day would have taken.
pub proof fn lemma_offset_step(cycle: CycleView, date: int)
    requires
        cycle.start - 1 <= date,
    ensures
        offset_in_cycle(cycle, date + 1) == offset_in_cycle(cycle, date) + (if is_fast_day_number(
            date + 1,
        ) {
            0int
        } else {
            1int
        }),
{
}

/// A fast day has no page. Any other day of a cycle has the page whose
/// place in the sequence is the number of days from the start of the cycle
/// to that day, less the fast days among them: every day of a cycle that
/// is no fast day has a page.
pub proof fn lemma_unit_of_day(policy: DafYomiYerushalmi, date: int, cycle: CycleView)
    requires
        cycle_of(policy, date) == Ok::<CycleView, ResolveError>(cycle),
    ensures
        is_cycle_end(cycle.start, cycle.end),
        cycle.contains(date),
        is_fast_day_number(date) ==> unit_of(policy, date) == Err::<Daf, ResolveError>(
            ResolveError::NoUnitScheduled,
        ),
        !is_fast_day_number(date) ==> 0 <= offset_in_cycle(cycle, date) < daf_sequence().len()
            && unit_of(policy, date) == Ok::<Daf, ResolveError>(
            daf_sequence()[offset_in_cycle(cycle, date)],
        ),
{
    lemma_counted_cycle_holds_date(policy, date);
    lemma_cycle_end(cycle.start, cycle.end);
    lemma_daf_sequence_len();
    lemma_study_days_grow(cycle.start, cycle.start - 1, date - 1);
    lemma_study_days_grow(cycle.start, date, cycle.end);
    lemma_single_day_interval(policy, date, cycle);
}

/// On the last day of a cycle the last page is studied. The first page is
/// studied on the first day of a cycle on which a page is studied: on its
/// first day, unless that is a fast day, and then on the day after it.
pub proof fn lemma_cycle_boundaries(policy: DafYomiYerushalmi, date: int, cycle: CycleView)
    requires
        cycle_of(policy, date) == Ok::<CycleView, ResolveError>(cycle),
    ensures
        date == cycle.end ==> unit_of(policy, date) == Ok::<Daf, ResolveError>(
            daf_sequence().last(),
        ),
        !is_fast_day_number(date) && study_days_in(cycle.start, date) == 1 ==> unit_of(
            policy,
            date,
        ) == Ok::<Daf, ResolveError>(daf_sequence().first()),
        date == cycle.start && !is_fast_day_number(date) ==> unit_of(policy, date) == Ok::<
            Daf,
            ResolveError,
        >(daf_sequence().first()),
{
    lemma_daf_sequence_len();
    lemma_unit_of_day(policy, date, cycle);
    lemma_skips_between_bounds(date - 1, date - 1);
}

/// The number of the first page of `tractate`.
pub fn start_daf(_tractate: Tractate, _iteration: i32) -> (r: u16)
    ensures
        r == 1,
{
    1
}

/// The number of the last page of `tractate`, or nothing for a tractate
/// that the Jerusalem Talmud lacks.
pub fn end_daf(tractate: Tractate, _iteration: i32) -> (r: Option<u16>)
    ensures
        r == last_page(tractate),
{
    match tractate {
        Tractate::Berachos => Some(68),
        Tractate::Peah => Some(37),
        Tractate::Demai => Some(34),
        Tractate::Kilayim => Some(44),
        Tractate::Sheviis => Some(31),
        Tractate::Terumos => Some(59),
        Tractate::Maasros => Some(26),
        Tractate::MaaserSheni => Some(33),
        Tractate::Chalah => Some(28),
        Tractate::Orlah => Some(20),
        Tractate::Bikurim => Some(13),
        Tractate::Shabbos => Some(92),
        Tractate::Eruvin => Some(65),
        Tractate::Pesachim => Some(71),
        Tractate::Beitzah => Some(22),
        Tractate::RoshHashanah => Some(22),
        Tractate::Yoma => Some(42),
        Tractate::Sukkah => Some(26),
        Tractate::Taanis => Some(26),
        Tractate::Shekalim => Some(33),
        Tractate::Megillah => Some(34),
        Tractate::Chagigah => Some(22),
        Tractate::MoedKatan => Some(19),
        Tractate::Yevamos => Some(85),
        Tractate::Kesubos => Some(72),
        Tractate::Sotah => Some(47),
        Tractate::Nedarim => Some(40),
        Tractate::Nazir => Some(47),
        Tractate::Gitin => Some(54),
        Tractate::Kiddushin => Some(48),
        Tractate::BavaKamma => Some(44),
        Tractate::BavaMetzia => Some(37),
        Tractate::BavaBasra => Some(34),
        Tractate::Sanhedrin => Some(57),
        Tractate::Makkos => Some(9),
        Tractate::Shevuos => Some(44),
        Tractate::AvodahZarah => Some(37),
        Tractate::Horiyos => Some(19),
        Tractate::Niddah => Some(13),
        _ => None,
    }
}

/// The page numbers of `tractate`.
pub fn iter(tractate: Tractate, iteration: i32) -> (r: Vec<u16>)
    ensures
        r@ == pages_of(tractate),
{
    match end_daf(tractate, iteration) {
        Some(end) => pages_between(start_daf(tractate, iteration), end),
        None => Vec::new(),
    }
}

/// The pages of a cycle, in the order of study.
pub fn iter_daf(iteration: i32) -> (r: Vec<Daf>)
    ensures
        r@ == daf_sequence(),
{
    let mut dafs: Vec<Daf> = Vec::new();
    let mut i: usize = 0;
    while i < 39
        invariant
            i <= 39,
            dafs@ == daf_prefix(i as nat),
        decreases 39 - i,
    {
        let tractate = YERUSHALMI_TRACTATES[i];
        let pages = iter(tractate, iteration);
        push_dafs(&mut dafs, tractate, &pages);
        i = i + 1;
    }
    dafs
}

/// The number of fast days among the days after `a` up to `b`, `b` included
/// and `a` not.
pub fn found_skips_between(a: HebrewDate, b: HebrewDate) -> (skips: i32)
    ensures
        skips == skips_between(a@, b@),
{
    let last = b.day_number();
    let first = a.day_number();
    let mut current = a;
    let mut skips: i32 = 0;
    while current.day_number() < last
        invariant
            last == b@,
            first == a@,
            day_in_range(first as int),
            day_in_range(last as int),
            first <= current@,
            current@ <= last || current@ == first,
            0 <= skips <= current@ - first,
            skips == skips_between(a@, current@),
        decreases days_left(current@, last as int),
    {
        let next = match current.add_days(1) {
            Some(next) => next,
            None => {
                assert(false);
                return skips;
            },
        };
        current = next;
        if is_fast_day(&current) {
            skips = skips + 1;
        }
    }
    skips
}

/// The daily page of the Jerusalem Talmud: one page a day but none on the
/// Day of Atonement and on the fast of the Ninth of Av, in cycles that
/// follow each other from 2 February 1980. A cycle lasts until each of its
/// pages has had its day: a fast day in a cycle makes it a day longer.
#[derive(Default)]
pub struct DafYomiYerushalmi {}

impl SchedulePolicy<Daf> for DafYomiYerushalmi {
    open spec fn anchor(&self) -> Option<int> {
        Some(DAF_YOMI_YERUSHALMI_START as int)
    }

    open spec fn perpetual_cycle_rule(&self, date: int) -> Option<(int, int)> {
        None
    }

    open spec fn cycle_end_rule(start: int, iteration: Option<int>) -> Option<int> {
        cycle_end(start)
    }

    open spec fn interval_end_rule(cycle: CycleView, start: int) -> Option<int> {
        Some(start)
    }

    open spec fn skip_rule(&self, interval: IntervalView) -> bool {
        is_fast_day_number(interval.start)
    }

    open spec fn unit_rule(&self, interval: IntervalView, date: int) -> Option<Daf> {
        if is_fast_day_number(interval.start) || interval.cycle.iteration.is_none() {
            None
        } else {
            item_at(daf_sequence(), offset_in_cycle(interval.cycle, date))
        }
    }

    proof fn lemma_cycle_end_rule(start: int, iteration: Option<int>) {
        if let Some(end) = cycle_end(start) {
            lemma_cycle_end(start, end);
        }
    }

    proof fn lemma_interval_end_rule(cycle: CycleView, start: int) {
    }

    fn cycle_finder(&self) -> (r: CycleFinder) {
        CycleFinder::Initial(HebrewDate::on_day(DAF_YOMI_YERUSHALMI_START))
    }

    fn perpetual_cycle(&self, date: HebrewDate) -> (r: Option<(HebrewDate, HebrewDate)>) {
        None
    }

    fn cycle_end_calculation(hebrew_date: HebrewDate, _iteration: Option<i32>) -> (r: Option<
        HebrewDate,
    >) {
        proof {
            use_type_invariant(&hebrew_date);
            lemma_skips_between_bounds(hebrew_date@ - 1, hebrew_date@ - 1);
        }
        let mut end_date = match hebrew_date.add_days(YERUSHALMI_DAF_COUNT - 1) {
            Some(date) => date,
            None => {
                proof {
                    assert forall|end: int| !is_cycle_end(hebrew_date@, end) by {
                        if is_cycle_end(hebrew_date@, end) {
                            lemma_cycle_end_is_later(
                                hebrew_date@,
                                hebrew_date@ - 1,
                                YERUSHALMI_DAF_COUNT as int,
                                end,
                            );
                        }
                    }
                }
                return None;
            },
        };
        let mut found_days = found_skips_between(hebrew_date, end_date);
        proof {
            lemma_skips_between_bounds(hebrew_date@, end_date@);
            lemma_skips_between_split(hebrew_date@ - 1, hebrew_date@, end_date@);
        }
        if is_fast_day(&hebrew_date) {
            found_days = found_days + 1;
        }
        proof {
            if found_days == 0 {
                lemma_no_fast_day_at_the_end(hebrew_date@ - 1, end_date@);
            }
        }
        while found_days > 0
            invariant
                hebrew_date@ <= end_date@,
                0 <= found_days,
                study_days_in(hebrew_date@, end_date@) + found_days == YERUSHALMI_DAF_COUNT,
                found_days == 0 ==> !is_fast_day_number(end_date@),
            decreases days_left(end_date@, MAX_DAY_NUMBER as int),
        {
            proof {
                use_type_invariant(&end_date);
            }
            let later = match end_date.add_days(found_days) {
                Some(date) => date,
                None => {
                    proof {
                        assert forall|end: int| !is_cycle_end(hebrew_date@, end) by {
                            if is_cycle_end(hebrew_date@, end) {
                                lemma_cycle_end_is_later(
                                    hebrew_date@,
                                    end_date@,
                                    found_days as int,
                                    end,
                                );
                            }
                        }
                    }
                    return None;
                },
            };
            proof {
                use_type_invariant(&later);
                lemma_skips_between_split(hebrew_date@ - 1, end_date@, later@);
                lemma_skips_between_bounds(end_date@, later@);
            }
            found_days = found_skips_between(end_date, later);
            proof {
                if found_days == 0 {
                    lemma_no_fast_day_at_the_end(end_date@, later@);
                }
            }
            end_date = later;
        }
        proof {
            use_type_invariant(&end_date);
            lemma_cycle_end(hebrew_date@, end_date@);
        }
        Some(end_date)
    }

    fn interval_end_calculation(cycle: Cycle, hebrew_date: HebrewDate) -> (r: Option<HebrewDate>) {
        Some(hebrew_date)
    }

    fn is_skip_interval(&self, interval: &Interval) -> (b: bool) {
        is_fast_day(&interval.start_date)
    }

    fn unit_for_interval(&self, interval: &Interval, limud_date: &HebrewDate) -> (r: Option<Daf>) {
        if self.is_skip_interval(interval) {
            return None;
        }
        let cycle_iteration = match interval.cycle.iteration {
            Some(iteration) => iteration,
            None => {
                return None;
            },
        };
        let dafs = iter_daf(cycle_iteration);
        let days_from_start = interval.cycle.start_date.days_until(limud_date);
        let mut skip_days_count = found_skips_between(interval.cycle.start_date, *limud_date);
        proof {
            use_type_invariant(&interval.cycle.start_date);
            use_type_invariant(limud_date);
            lemma_skips_between_bounds(interval.cycle.start_date@, limud_date@);
            lemma_skips_between_bounds(interval.cycle.start_date@ - 1, interval.cycle.start_date@ - 1);
            if interval.cycle.start_date@ <= limud_date@ {
                lemma_skips_between_split(
                    interval.cycle.start_date@ - 1,
                    interval.cycle.start_date@,
                    limud_date@,
                );
            }
        }
        if days_from_start >= 0 && is_fast_day(&interval.cycle.start_date) {
            skip_days_count = skip_days_count + 1;
        }
        let offset = days_from_start - (skip_days_count as i64);
        nth(&dafs, offset)
    }
}

impl LimudCalculator<Daf> for DafYomiYerushalmi {
}

} // verus!
