//! The daily half-page of the Babylonian Talmud.

use crate::constants::{AMUD_YOMI_BAVLI_DIRSHU_START, BAVLI_TOTAL_AMUDIM};
use crate::cycle::{Cycle, CycleView};
use crate::date::{day_plus, HebrewDate};
use crate::interval::{Interval, IntervalView};
use crate::limud_calculator::{
    cycle_of,
    unit_of,
    CycleFinder,
    LimudCalculator,
    ResolveError,
    SchedulePolicy,
};
use crate::theorems::{lemma_counted_cycle_holds_date, lemma_single_day_interval};
use crate::units::{amud_run, item_at, nth, Amud, AmudIter, Side, Tractate, BAVLI_TRACTATES};
use vstd::prelude::*;

verus! {

/// The first half-page of `tractate`.
pub open spec fn first_amud(tractate: Tractate) -> Amud {
    match tractate {
        Tractate::Kinnim => Amud { tractate: Tractate::Kinnim, page: 22, side: Side::Bet },
        Tractate::Tamid => Amud { tractate: Tractate::Tamid, page: 25, side: Side::Bet },
        Tractate::Midos => Amud { tractate: Tractate::Midos, page: 34, side: Side::Aleph },
        _ => Amud { tractate, page: 2, side: Side::Aleph },
    }
}

/// The last half-page of `tractate`, for a tractate of the Babylonian
/// Talmud.
pub open spec fn last_amud(tractate: Tractate) -> Option<Amud> {
    match tractate {
        Tractate::Berachos => Some(Amud { tractate: Tractate::Berachos, page: 64, side: Side::Aleph }),
        Tractate::Shabbos => Some(Amud { tractate: Tractate::Shabbos, page: 157, side: Side::Bet }),
        Tractate::Eruvin => Some(Amud { tractate: Tractate::Eruvin, page: 105, side: Side::Aleph }),
        Tractate::Pesachim => Some(Amud { tractate: Tractate::Pesachim, page: 121, side: Side::Bet }),
        Tractate::Shekalim => Some(Amud { tractate: Tractate::Shekalim, page: 22, side: Side::Bet }),
        Tractate::Yoma => Some(Amud { tractate: Tractate::Yoma, page: 88, side: Side::Aleph }),
        Tractate::Sukkah => Some(Amud { tractate: Tractate::Sukkah, page: 56, side: Side::Bet }),
        Tractate::Beitzah => Some(Amud { tractate: Tractate::Beitzah, page: 40, side: Side::Bet }),
        Tractate::RoshHashanah => Some(Amud { tractate: Tractate::RoshHashanah, page: 35, side: Side::Aleph }),
        Tractate::Taanis => Some(Amud { tractate: Tractate::Taanis, page: 31, side: Side::Aleph }),
        Tractate::Megillah => Some(Amud { tractate: Tractate::Megillah, page: 32, side: Side::Aleph }),
        Tractate::MoedKatan => Some(Amud { tractate: Tractate::MoedKatan, page: 29, side: Side::Aleph }),
        Tractate::Chagigah => Some(Amud { tractate: Tractate::Chagigah, page: 27, side: Side::Aleph }),
        Tractate::Yevamos => Some(Amud { tractate: Tractate::Yevamos, page: 122, side: Side::Bet }),
        Tractate::Kesubos => Some(Amud { tractate: Tractate::Kesubos, page: 112, side: Side::Bet }),
        Tractate::Nedarim => Some(Amud { tractate: Tractate::Nedarim, page: 91, side: Side::Bet }),
        Tractate::Nazir => Some(Amud { tractate: Tractate::Nazir, page: 66, side: Side::Bet }),
        Tractate::Sotah => Some(Amud { tractate: Tractate::Sotah, page: 49, side: Side::Bet }),
        Tractate::Gitin => Some(Amud { tractate: Tractate::Gitin, page: 90, side: Side::Bet }),
        Tractate::Kiddushin => Some(Amud { tractate: Tractate::Kiddushin, page: 82, side: Side::Bet }),
        Tractate::BavaKamma => Some(Amud { tractate: Tractate::BavaKamma, page: 119, side: Side::Bet }),
        Tractate::BavaMetzia => Some(Amud { tractate: Tractate::BavaMetzia, page: 119, side: Side::Aleph }),
        Tractate::BavaBasra => Some(Amud { tractate: Tractate::BavaBasra, page: 176, side: Side::Bet }),
        Tractate::Sanhedrin => Some(Amud { tractate: Tractate::Sanhedrin, page: 113, side: Side::Bet }),
        Tractate::Makkos => Some(Amud { tractate: Tractate::Makkos, page: 24, side: Side::Bet }),
        Tractate::Shevuos => Some(Amud { tractate: Tractate::Shevuos, page: 49, side: Side::Bet }),
        Tractate::AvodahZarah => Some(Amud { tractate: Tractate::AvodahZarah, page: 76, side: Side::Bet }),
        Tractate::Horiyos => Some(Amud { tractate: Tractate::Horiyos, page: 14, side: Side::Aleph }),
        Tractate::Zevachim => Some(Amud { tractate: Tractate::Zevachim, page: 120, side: Side::Bet }),
        Tractate::Menachos => Some(Amud { tractate: Tractate::Menachos, page: 110, side: Side::Aleph }),
        Tractate::Chullin => Some(Amud { tractate: Tractate::Chullin, page: 142, side: Side::Aleph }),
        Tractate::Bechoros => Some(Amud { tractate: Tractate::Bechoros, page: 61, side: Side::Aleph }),
        Tractate::Arachin => Some(Amud { tractate: Tractate::Arachin, page: 34, side: Side::Aleph }),
        Tractate::Temurah => Some(Amud { tractate: Tractate::Temurah, page: 34, side: Side::Aleph }),
        Tractate::Kerisos => Some(Amud { tractate: Tractate::Kerisos, page: 28, side: Side::Bet }),
        Tractate::Meilah => Some(Amud { tractate: Tractate::Meilah, page: 22, side: Side::Aleph }),
        Tractate::Kinnim => Some(Amud { tractate: Tractate::Kinnim, page: 25, side: Side::Aleph }),
        Tractate::Tamid => Some(Amud { tractate: Tractate::Tamid, page: 33, side: Side::Bet }),
        Tractate::Midos => Some(Amud { tractate: Tractate::Midos, page: 37, side: Side::Bet }),
        Tractate::Niddah => Some(Amud { tractate: Tractate::Niddah, page: 73, side: Side::Aleph }),
        _ => None,
    }
}

/// The half-pages of `tractate`, in their order.
pub open spec fn amuds_of(tractate: Tractate) -> Seq<Amud> {
    match last_amud(tractate) {
        Some(last) => amud_run(tractate, first_amud(tractate).position(), last.position()),
        None => Seq::empty(),
    }
}

/// The half-pages of the first `count` tractates, in the order of study.
pub open spec fn amud_prefix(count: nat) -> Seq<Amud>
    decreases count,
{
    if count == 0 {
        Seq::empty()
    } else {
        amud_prefix((count - 1) as nat) + amuds_of(BAVLI_TRACTATES@[count - 1])
    }
}

/// The half-pages of a cycle, in the order of study.
pub open spec fn amud_sequence() -> Seq<Amud> {
    amud_prefix(40)
}

/// The place in the sequence of half-pages that `date` has in `cycle`: the
/// number of days from the start of the cycle.
pub open spec fn offset_in_cycle(cycle: CycleView, date: int) -> int {
    date - cycle.start
}

/// A cycle has 5406 half-pages.
pub proof fn lemma_amud_sequence_len()
    ensures
        amud_sequence().len() == BAVLI_TOTAL_AMUDIM,
{
    assert(amud_prefix(0).len() == 0);
    assert(amud_prefix(1).len() == 125);
    assert(amud_prefix(2).len() == 437);
    assert(amud_prefix(3).len() == 644);
    assert(amud_prefix(4).len() == 884);
    assert(amud_prefix(5).len() == 926);
    assert(amud_prefix(6).len() == 1099);
    assert(amud_prefix(7).len() == 1209);
    assert(amud_prefix(8).len() == 1287);
    assert(amud_prefix(9).len() == 1354);
    assert(amud_prefix(10).len() == 1413);
    assert(amud_prefix(11).len() == 1474);
    assert(amud_prefix(12).len() == 1529);
    assert(amud_prefix(13).len() == 1580);
    assert(amud_prefix(14).len() == 1822);
    assert(amud_prefix(15).len() == 2044);
    assert(amud_prefix(16).len() == 2224);
    assert(amud_prefix(17).len() == 2354);
    assert(amud_prefix(18).len() == 2450);
    assert(amud_prefix(19).len() == 2628);
    assert(amud_prefix(20).len() == 2790);
    assert(amud_prefix(21).len() == 3026);
    assert(amud_prefix(22).len() == 3261);
    assert(amud_prefix(23).len() == 3611);
    assert(amud_prefix(24).len() == 3835);
    assert(amud_prefix(25).len() == 3881);
    assert(amud_prefix(26).len() == 3977);
    assert(amud_prefix(27).len() == 4127);
    assert(amud_prefix(28).len() == 4152);
    assert(amud_prefix(29).len() == 4390);
    assert(amud_prefix(30).len() == 4607);
    assert(amud_prefix(31).len() == 4888);
    assert(amud_prefix(32).len() == 5007);
    assert(amud_prefix(33).len() == 5072);
    assert(amud_prefix(34).len() == 5137);
    assert(amud_prefix(35).len() == 5191);
    assert(amud_prefix(36).len() == 5232);
    assert(amud_prefix(37).len() == 5238);
    assert(amud_prefix(38).len() == 5255);
    assert(amud_prefix(39).len() == 5263);
    assert(amud_prefix(40).len() == 5406);
}

/// From one day to the next, the place in the sequence of half-pages goes
/// up by one.
pub proof fn lemma_offset_step(cycle: CycleView, date: int)
    ensures
        offset_in_cycle(cycle, date + 1) == offset_in_cycle(cycle, date) + 1,
{
}

/// The half-page of a date is the one whose place in the sequence is the
/// number of days from the start of the cycle to the date: every date in a
/// cycle has a half-page.
pub proof fn lemma_unit_of_day(policy: AmudYomiBavliDirshu, date: int, cycle: CycleView)
    requires
        cycle_of(policy, date) == Ok::<CycleView, ResolveError>(cycle),
    ensures
        0 <= date - cycle.start < amud_sequence().len(),
        unit_of(policy, date) == Ok::<Amud, ResolveError>(amud_sequence()[date - cycle.start]),
{
    lemma_counted_cycle_holds_date(policy, date);
    lemma_amud_sequence_len();
    lemma_single_day_interval(policy, date, cycle);
}

/// On the last day of a cycle the last half-page is studied, and on the
/// first day of a cycle the first; a cycle has as many days as there are
/// half-pages.
pub proof fn lemma_cycle_boundaries(policy: AmudYomiBavliDirshu, date: int, cycle: CycleView)
    requires
        cycle_of(policy, date) == Ok::<CycleView, ResolveError>(cycle),
    ensures
        amud_sequence().len() == cycle.end - cycle.start + 1,
        date == cycle.start ==> unit_of(policy, date) == Ok::<Amud, ResolveError>(
            amud_sequence().first(),
        ),
        date == cycle.end ==> unit_of(policy, date) == Ok::<Amud, ResolveError>(
            amud_sequence().last(),
        ),
{
    lemma_counted_cycle_holds_date(policy, date);
    lemma_amud_sequence_len();
    lemma_unit_of_day(policy, date, cycle);
}

/// The first half-page of `tractate`.
pub fn start_daf(tractate: Tractate, _iteration: i32) -> (r: Amud)
    ensures
        r == first_amud(tractate),
{
    match tractate {
        Tractate::Kinnim => Amud::new(Tractate::Kinnim, 22, Side::Bet),
        Tractate::Tamid => Amud::new(Tractate::Tamid, 25, Side::Bet),
        Tractate::Midos => Amud::new(Tractate::Midos, 34, Side::Aleph),
        _ => Amud::new(tractate, 2, Side::Aleph),
    }
}

/// The last half-page of `tractate`, or nothing for a tractate that the
/// Babylonian Talmud lacks.
pub fn end_daf(tractate: Tractate, _iteration: i32) -> (r: Option<Amud>)
    ensures
        r == last_amud(tractate),
{
    match tractate {
        Tractate::Berachos => Some(Amud::new(Tractate::Berachos, 64, Side::Aleph)),
        Tractate::Shabbos => Some(Amud::new(Tractate::Shabbos, 157, Side::Bet)),
        Tractate::Eruvin => Some(Amud::new(Tractate::Eruvin, 105, Side::Aleph)),
        Tractate::Pesachim => Some(Amud::new(Tractate::Pesachim, 121, Side::Bet)),
        Tractate::Shekalim => Some(Amud::new(Tractate::Shekalim, 22, Side::Bet)),
        Tractate::Yoma => Some(Amud::new(Tractate::Yoma, 88, Side::Aleph)),
        Tractate::Sukkah => Some(Amud::new(Tractate::Sukkah, 56, Side::Bet)),
        Tractate::Beitzah => Some(Amud::new(Tractate::Beitzah, 40, Side::Bet)),
        Tractate::RoshHashanah => Some(Amud::new(Tractate::RoshHashanah, 35, Side::Aleph)),
        Tractate::Taanis => Some(Amud::new(Tractate::Taanis, 31, Side::Aleph)),
        Tractate::Megillah => Some(Amud::new(Tractate::Megillah, 32, Side::Aleph)),
        Tractate::MoedKatan => Some(Amud::new(Tractate::MoedKatan, 29, Side::Aleph)),
        Tractate::Chagigah => Some(Amud::new(Tractate::Chagigah, 27, Side::Aleph)),
        Tractate::Yevamos => Some(Amud::new(Tractate::Yevamos, 122, Side::Bet)),
        Tractate::Kesubos => Some(Amud::new(Tractate::Kesubos, 112, Side::Bet)),
        Tractate::Nedarim => Some(Amud::new(Tractate::Nedarim, 91, Side::Bet)),
        Tractate::Nazir => Some(Amud::new(Tractate::Nazir, 66, Side::Bet)),
        Tractate::Sotah => Some(Amud::new(Tractate::Sotah, 49, Side::Bet)),
        Tractate::Gitin => Some(Amud::new(Tractate::Gitin, 90, Side::Bet)),
        Tractate::Kiddushin => Some(Amud::new(Tractate::Kiddushin, 82, Side::Bet)),
        Tractate::BavaKamma => Some(Amud::new(Tractate::BavaKamma, 119, Side::Bet)),
        Tractate::BavaMetzia => Some(Amud::new(Tractate::BavaMetzia, 119, Side::Aleph)),
        Tractate::BavaBasra => Some(Amud::new(Tractate::BavaBasra, 176, Side::Bet)),
        Tractate::Sanhedrin => Some(Amud::new(Tractate::Sanhedrin, 113, Side::Bet)),
        Tractate::Makkos => Some(Amud::new(Tractate::Makkos, 24, Side::Bet)),
        Tractate::Shevuos => Some(Amud::new(Tractate::Shevuos, 49, Side::Bet)),
        Tractate::AvodahZarah => Some(Amud::new(Tractate::AvodahZarah, 76, Side::Bet)),
        Tractate::Horiyos => Some(Amud::new(Tractate::Horiyos, 14, Side::Aleph)),
        Tractate::Zevachim => Some(Amud::new(Tractate::Zevachim, 120, Side::Bet)),
        Tractate::Menachos => Some(Amud::new(Tractate::Menachos, 110, Side::Aleph)),
        Tractate::Chullin => Some(Amud::new(Tractate::Chullin, 142, Side::Aleph)),
        Tractate::Bechoros => Some(Amud::new(Tractate::Bechoros, 61, Side::Aleph)),
        Tractate::Arachin => Some(Amud::new(Tractate::Arachin, 34, Side::Aleph)),
        Tractate::Temurah => Some(Amud::new(Tractate::Temurah, 34, Side::Aleph)),
        Tractate::Kerisos => Some(Amud::new(Tractate::Kerisos, 28, Side::Bet)),
        Tractate::Meilah => Some(Amud::new(Tractate::Meilah, 22, Side::Aleph)),
        Tractate::Kinnim => Some(Amud::new(Tractate::Kinnim, 25, Side::Aleph)),
        Tractate::Tamid => Some(Amud::new(Tractate::Tamid, 33, Side::Bet)),
        Tractate::Midos => Some(Amud::new(Tractate::Midos, 37, Side::Bet)),
        Tractate::Niddah => Some(Amud::new(Tractate::Niddah, 73, Side::Aleph)),
        _ => None,
    }
}

/// The half-pages of `tractate`, handed out one at a time.
pub fn iter(tractate: Tractate, iteration: i32) -> (r: AmudIter)
    ensures
        r@ == amuds_of(tractate),
{
    match end_daf(tractate, iteration) {
        Some(end) => AmudIter::new(start_daf(tractate, iteration), end),
        None => AmudIter::empty(),
    }
}

/// The half-pages of a cycle, in the order of study.
pub fn iter_amud(iteration: i32) -> (r: Vec<Amud>)
    ensures
        r@ == amud_sequence(),
{
    let mut amuds: Vec<Amud> = Vec::new();
    let mut i: usize = 0;
    while i < 40
        invariant
            i <= 40,
            amuds@ == amud_prefix(i as nat),
        decreases 40 - i,
    {
        let mut rest = iter(BAVLI_TRACTATES[i], iteration);
        let ghost goal = amuds@ + rest@;
        loop
            invariant
                amuds@ + rest@ == goal,
            ensures
                amuds@ == goal,
            decreases rest@.len(),
        {
            let ghost before = rest@;
            match rest.next() {
                Some(amud) => {
                    amuds.push(amud);
                    assert(amuds@ + rest@ == goal) by {
                        assert(before == seq![amud] + before.drop_first());
                    }
                },
                None => {
                    assert(rest@ == Seq::<Amud>::empty());
                    assert(amuds@ + rest@ == amuds@);
                    break ;
                },
            }
        }
        i = i + 1;
    }
    amuds
}

/// The daily half-page of the Babylonian Talmud: one side of a page a day,
/// in cycles that follow each other from 16 October 2023.
#[derive(Default)]
pub struct AmudYomiBavliDirshu {}

impl SchedulePolicy<Amud> for AmudYomiBavliDirshu {
    open spec fn anchor(&self) -> Option<int> {
        Some(AMUD_YOMI_BAVLI_DIRSHU_START as int)
    }

    open spec fn perpetual_cycle_rule(&self, date: int) -> Option<(int, int)> {
        None
    }

    open spec fn cycle_end_rule(start: int, iteration: Option<int>) -> Option<int> {
        day_plus(start, BAVLI_TOTAL_AMUDIM - 1)
    }

    open spec fn interval_end_rule(cycle: CycleView, start: int) -> Option<int> {
        Some(start)
    }

    open spec fn skip_rule(&self, interval: IntervalView) -> bool {
        false
    }

    open spec fn unit_rule(&self, interval: IntervalView, date: int) -> Option<Amud> {
        if interval.cycle.iteration.is_some() {
            item_at(amud_sequence(), offset_in_cycle(interval.cycle, date))
        } else {
            None
        }
    }

    proof fn lemma_cycle_end_rule(start: int, iteration: Option<int>) {
    }

    proof fn lemma_interval_end_rule(cycle: CycleView, start: int) {
    }

    fn cycle_finder(&self) -> (r: CycleFinder) {
        CycleFinder::Initial(HebrewDate::on_day(AMUD_YOMI_BAVLI_DIRSHU_START))
    }

    fn perpetual_cycle(&self, date: HebrewDate) -> (r: Option<(HebrewDate, HebrewDate)>) {
        None
    }

    fn cycle_end_calculation(hebrew_date: HebrewDate, _iteration: Option<i32>) -> (r: Option<
        HebrewDate,
    >) {
        hebrew_date.add_days(BAVLI_TOTAL_AMUDIM - 1)
    }

    fn interval_end_calculation(cycle: Cycle, hebrew_date: HebrewDate) -> (r: Option<HebrewDate>) {
        Some(hebrew_date)
    }

    fn is_skip_interval(&self, interval: &Interval) -> (b: bool) {
        false
    }

    fn unit_for_interval(&self, interval: &Interval, limud_date: &HebrewDate) -> (r: Option<
        Amud,
    >) {
        let cycle_iteration = match interval.cycle.iteration {
            Some(iteration) => iteration,
            None => {
                return None;
            },
        };
        let amuds = iter_amud(cycle_iteration);
        let offset = interval.cycle.start_date.days_until(limud_date);
        nth(&amuds, offset)
    }
}

impl LimudCalculator<Amud> for AmudYomiBavliDirshu {
}

} // verus!
