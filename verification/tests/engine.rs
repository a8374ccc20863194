use limudim::cycle::Cycle;
use limudim::date::{from_gregorian_date, from_hebrew_date, HebrewDate, HebrewMonth, MAX_DAY_NUMBER};
use limudim::interval::{Interval, Transition};
use limudim::limud_calculator::{CycleFinder, ResolveError, SchedulePolicy};
use limudim::{
    AmudYomiBavliDirshu, Daf, DafHashavuaBavli, DafYomiBavli, DafYomiYerushalmi, LimudCalendar,
    LimudCalculator, MishnaYomis, Mishnas, PirkeiAvos, PirkeiAvosUnit, TehillimMonthly,
    TehillimUnit, Tractate,
};

fn gregorian(year: i32, month: u8, day: u8) -> HebrewDate {
    from_gregorian_date(year, month, day).expect("valid gregorian date")
}

fn hebrew(year: i32, month: HebrewMonth, day: u8) -> HebrewDate {
    from_hebrew_date(year, month, day).expect("valid hebrew date")
}

#[test]
fn no_unit_before_the_anchor() {
    let day_before = gregorian(1923, 9, 10);
    assert_eq!(DafYomiBavli::default().limud(day_before), None);
    assert_eq!(
        DafYomiBavli::default().resolve(day_before),
        Err(ResolveError::BeforeCycleStart)
    );
    assert_eq!(
        DafYomiBavli::default().find_cycle(day_before).err(),
        Some(ResolveError::BeforeCycleStart)
    );
    assert_eq!(
        DafYomiBavli::default().locate(day_before).err(),
        Some(ResolveError::BeforeCycleStart)
    );
    assert_eq!(
        MishnaYomis.resolve(gregorian(1947, 5, 19)),
        Err(ResolveError::BeforeCycleStart)
    );
    assert_eq!(
        DafHashavuaBavli::default().resolve(gregorian(2005, 3, 5)),
        Err(ResolveError::BeforeCycleStart)
    );
    assert_eq!(
        AmudYomiBavliDirshu::default().resolve(gregorian(2023, 10, 15)),
        Err(ResolveError::BeforeCycleStart)
    );
    assert_eq!(
        DafYomiYerushalmi::default().resolve(gregorian(1980, 2, 1)),
        Err(ResolveError::BeforeCycleStart)
    );
    assert!(DafYomiBavli::default().resolve(gregorian(1923, 9, 11)).is_ok());
}

#[test]
fn the_first_cycle_starts_on_the_anchor() {
    let anchor = gregorian(1923, 9, 11);
    match DafYomiBavli::default().cycle_finder() {
        CycleFinder::Initial(date) => assert_eq!(date, anchor),
        CycleFinder::Perpetual => panic!("the daily page counts its cycles"),
    }
    let cycle = DafYomiBavli::default().find_cycle(anchor).expect("the first cycle");
    assert_eq!(cycle.start_date, anchor);
    assert_eq!(cycle.end_date.day_number(), anchor.day_number() + 2701);
    assert_eq!(cycle.iteration, Some(1));
    let second = cycle.next::<Daf, DafYomiBavli>().expect("the second cycle");
    assert_eq!(second.start_date.day_number(), anchor.day_number() + 2702);
    assert_eq!(second.end_date.day_number(), anchor.day_number() + 2 * 2702 - 1);
    assert_eq!(second.iteration, Some(2));
}

#[test]
fn cycles_grow_with_the_eighth_cycle() {
    let date = gregorian(2020, 1, 5);
    let cycle = DafYomiBavli::default().find_cycle(date).expect("a cycle");
    assert_eq!(cycle.iteration, Some(14));
    assert_eq!(cycle.start_date, date);
    assert_eq!(cycle.end_date.day_number() - cycle.start_date.day_number() + 1, 2711);
    let seventh = DafYomiBavli::default()
        .find_cycle(gregorian(1975, 6, 23))
        .expect("a cycle");
    assert_eq!(seventh.iteration, Some(7));
    assert_eq!(seventh.end_date, gregorian(1975, 6, 23));
    assert_eq!(seventh.end_date.day_number() - seventh.start_date.day_number() + 1, 2702);
    let eighth = DafYomiBavli::default()
        .find_cycle(gregorian(1975, 6, 24))
        .expect("a cycle");
    assert_eq!(eighth.iteration, Some(8));
    assert_eq!(eighth.start_date, gregorian(1975, 6, 24));
    assert_eq!(eighth.end_date.day_number() - eighth.start_date.day_number() + 1, 2711);
}

#[test]
fn the_cycle_and_the_interval_hold_the_date() {
    let mut date = gregorian(2019, 12, 20);
    for _ in 0..40 {
        let interval = DafYomiBavli::default().locate(date).expect("an interval");
        assert!(interval.contains(date));
        assert!(interval.cycle.start_date.day_number() <= date.day_number());
        assert!(date.day_number() <= interval.cycle.end_date.day_number());
        assert_eq!(
            interval.iteration as i64,
            date.day_number() - interval.cycle.start_date.day_number() + 1
        );
        let week = DafHashavuaBavli::default().locate(date).expect("an interval");
        assert!(week.contains(date));
        assert!(week.cycle.start_date.day_number() <= week.start_date.day_number());
        assert!(week.end_date.day_number() <= week.cycle.end_date.day_number());
        assert_eq!(week.end_date.day_of_week_number(), 7);
        date = date.add_days(1).unwrap();
    }
}

#[test]
fn the_last_page_is_followed_by_the_first() {
    let last = gregorian(1975, 6, 23);
    let unit = DafYomiBavli::default().limud(last).expect("limud exists");
    assert_eq!(unit, Daf { tractate: Tractate::Niddah, page: 73 });
    let first = DafYomiBavli::default()
        .limud(last.add_days(1).unwrap())
        .expect("limud exists");
    assert_eq!(first, Daf { tractate: Tractate::Berachos, page: 2 });
    let weekly_last = DafHashavuaBavli::default()
        .limud(gregorian(2057, 2, 11))
        .expect("limud exists");
    assert_eq!(weekly_last, Daf { tractate: Tractate::Niddah, page: 73 });
    let before_last = DafHashavuaBavli::default()
        .limud(gregorian(2057, 2, 10))
        .expect("limud exists");
    assert_eq!(before_last, Daf { tractate: Tractate::Niddah, page: 72 });
}

#[test]
fn shekalim_has_more_pages_from_the_eighth_cycle() {
    let seventh = DafYomiBavli::default()
        .limud(gregorian(1969, 4, 28))
        .expect("limud exists");
    assert_eq!(seventh, Daf { tractate: Tractate::Shekalim, page: 13 });
    let eighth_start = gregorian(1975, 6, 24).day_number();
    let shekalim_ends = HebrewDate::from_day_number(eighth_start + 63 + 156 + 104 + 120 + 20).unwrap();
    assert_eq!(
        DafYomiBavli::default().limud(shekalim_ends),
        Some(Daf { tractate: Tractate::Shekalim, page: 22 })
    );
    assert_eq!(
        DafYomiBavli::default().limud(shekalim_ends.add_days(1).unwrap()),
        Some(Daf { tractate: Tractate::Yoma, page: 2 })
    );
}

#[test]
fn consecutive_days_take_consecutive_pages() {
    let date = gregorian(2017, 12, 28);
    let today = DafYomiBavli::default().limud(date).unwrap();
    let tomorrow = DafYomiBavli::default().limud(date.add_days(1).unwrap()).unwrap();
    assert_eq!(today, Daf { tractate: Tractate::Shevuos, page: 30 });
    assert_eq!(tomorrow, Daf { tractate: Tractate::Shevuos, page: 31 });
    let Mishnas(_, second) = MishnaYomis.limud(date).unwrap();
    let Mishnas(third, fourth) = MishnaYomis.limud(date.add_days(1).unwrap()).unwrap();
    assert_eq!((second.chapter, second.mishna), (3, 5));
    assert_eq!((third.chapter, third.mishna), (3, 6));
    assert_eq!((fourth.chapter, fourth.mishna), (4, 1));
}

#[test]
fn the_day_after_a_fast_takes_the_page_of_the_fast() {
    let fast = gregorian(2000, 8, 10);
    let calculator = DafYomiYerushalmi::default();
    let before = calculator.limud(fast.add_days(-1).unwrap()).expect("limud exists");
    assert_eq!(calculator.resolve(fast), Err(ResolveError::NoUnitScheduled));
    let after = calculator.limud(fast.add_days(1).unwrap()).expect("limud exists");
    assert_eq!(before.tractate, after.tractate);
    assert_eq!(before.page + 1, after.page);
    let located = calculator.locate(fast).expect("an interval");
    assert!(calculator.is_skip_interval(&located));
    let following = calculator.locate(fast.add_days(1).unwrap()).expect("an interval");
    assert_eq!(following.iteration, located.iteration);
    let later = calculator.locate(fast.add_days(2).unwrap()).expect("an interval");
    assert_eq!(later.iteration, located.iteration + 1);
}

#[test]
fn a_skip_keeps_the_number_and_a_continue_raises_it() {
    let cycle = DafYomiBavli::default()
        .find_cycle(gregorian(2020, 1, 5))
        .expect("a cycle");
    let first = Interval::first_for_cycle::<Daf, DafYomiBavli>(cycle).expect("an interval");
    assert_eq!(first.iteration, 1);
    assert_eq!(first.start_date, cycle.start_date);
    assert_eq!(first.end_date, cycle.start_date);
    let skipped = first.skip::<Daf, DafYomiBavli>().expect("an interval");
    assert_eq!(skipped.iteration, 1);
    assert_eq!(skipped.start_date.day_number(), first.end_date.day_number() + 1);
    let continued = first.next::<Daf, DafYomiBavli>().expect("an interval");
    assert_eq!(continued.iteration, 2);
    assert_eq!(continued.start_date.day_number(), first.end_date.day_number() + 1);
    let by_skip = first.advance::<Daf, DafYomiBavli>(Transition::Skip).expect("an interval");
    assert_eq!(by_skip.iteration, 1);
    let by_continue = first
        .advance::<Daf, DafYomiBavli>(Transition::Continue)
        .expect("an interval");
    assert_eq!(by_continue.iteration, 2);
}

#[test]
fn the_last_interval_of_a_cycle_has_no_successor() {
    let cycle = DafYomiBavli::default()
        .find_cycle(gregorian(2020, 1, 5))
        .expect("a cycle");
    let last = Interval {
        start_date: cycle.end_date,
        end_date: cycle.end_date,
        iteration: 2711,
        cycle,
    };
    assert_eq!(
        last.next::<Daf, DafYomiBavli>().err(),
        Some(ResolveError::InternalInconsistency)
    );
    assert_eq!(
        last.skip::<Daf, DafYomiBavli>().err(),
        Some(ResolveError::InternalInconsistency)
    );
}

#[test]
fn a_cycle_without_a_number_has_no_successor() {
    let date = hebrew(5778, HebrewMonth::Teves, 8);
    let cycle = TehillimMonthly.find_cycle(date).expect("a cycle");
    assert_eq!(cycle.iteration, None);
    assert_eq!(cycle.start_date, hebrew(5778, HebrewMonth::Teves, 1));
    assert_eq!(cycle.end_date, hebrew(5778, HebrewMonth::Teves, 29));
    assert_eq!(
        cycle.next::<TehillimUnit, TehillimMonthly>().err(),
        Some(ResolveError::InternalInconsistency)
    );
    let derived = Cycle::from_perpetual::<TehillimUnit, TehillimMonthly>(&TehillimMonthly, date)
        .expect("a cycle");
    assert_eq!(derived.start_date, cycle.start_date);
    assert_eq!(derived.end_date, cycle.end_date);
}

#[test]
fn a_cycle_that_would_end_out_of_range_is_an_overflow() {
    let last = HebrewDate::from_day_number(MAX_DAY_NUMBER).unwrap();
    assert_eq!(
        DafYomiBavli::default().resolve(last),
        Err(ResolveError::DateAlgebraOverflow)
    );
    assert_eq!(DafYomiBavli::default().limud(last), None);
    assert_eq!(
        <DafYomiBavli as SchedulePolicy<Daf>>::cycle_end_calculation(last, Some(8)),
        None
    );
    assert_eq!(
        Cycle::from_cycle_initiation::<Daf, DafYomiBavli>(last, last).err(),
        Some(ResolveError::DateAlgebraOverflow)
    );
    let calendar_cycle = PirkeiAvos::new(false).resolve(last);
    assert_eq!(calendar_cycle, Err(ResolveError::DateAlgebraOverflow));
}

#[test]
fn a_date_after_the_end_of_its_cycle_has_no_unit() {
    let calculator = PirkeiAvos::new(false);
    let date = hebrew(5778, HebrewMonth::Elul, 29);
    assert_eq!(calculator.resolve(date), Err(ResolveError::NoUnitScheduled));
    let cycle = calculator.find_cycle(date).expect("a cycle");
    assert_eq!(cycle.start_date, hebrew(5778, HebrewMonth::Nissan, 23));
    assert_eq!(cycle.end_date, hebrew(5778, HebrewMonth::Elul, 28));
    assert_eq!(cycle.end_date.day_of_week_number(), 7);
    let winter = hebrew(5779, HebrewMonth::Teves, 1);
    let previous = calculator.find_cycle(winter).expect("a cycle");
    assert_eq!(previous.start_date, cycle.start_date);
    assert_eq!(calculator.resolve(winter), Err(ResolveError::NoUnitScheduled));
}

#[test]
fn a_skipped_week_is_followed_by_the_first_chapter() {
    let calculator = PirkeiAvos::new(false);
    let in_week = hebrew(5769, HebrewMonth::Sivan, 3);
    assert_eq!(calculator.resolve(in_week), Err(ResolveError::NoUnitScheduled));
    let located = calculator.locate(in_week).expect("an interval");
    assert!(calculator.is_skip_interval(&located));
    assert_eq!(located.end_date, hebrew(5769, HebrewMonth::Sivan, 7));
    let week_later = in_week.add_days(7).unwrap();
    assert_eq!(calculator.limud(week_later), Some(PirkeiAvosUnit::Single(1)));
    let next = calculator.locate(week_later).expect("an interval");
    assert_eq!(next.iteration, located.iteration);
    assert_eq!(next.iteration, 7);
    let week_before = in_week.add_days(-7).unwrap();
    assert_eq!(calculator.limud(week_before), Some(PirkeiAvosUnit::Single(6)));
    assert_eq!(
        PirkeiAvos::new(true).limud(week_later),
        Some(PirkeiAvosUnit::Single(2))
    );
}

#[test]
fn the_last_weeks_take_two_chapters() {
    let diaspora = PirkeiAvos::new(false);
    let israel = PirkeiAvos::new(true);
    let last_saturday = hebrew(5778, HebrewMonth::Elul, 28);
    assert_eq!(diaspora.limud(last_saturday), Some(PirkeiAvosUnit::Combined(5, 6)));
    assert_eq!(israel.limud(last_saturday), Some(PirkeiAvosUnit::Combined(5, 6)));
    let week_before = last_saturday.add_days(-7).unwrap();
    assert_eq!(diaspora.limud(week_before), Some(PirkeiAvosUnit::Combined(3, 4)));
    assert_eq!(israel.limud(week_before), Some(PirkeiAvosUnit::Single(4)));
    let two_before = last_saturday.add_days(-14).unwrap();
    assert_eq!(diaspora.limud(two_before), Some(PirkeiAvosUnit::Single(2)));
    assert_eq!(israel.limud(two_before), Some(PirkeiAvosUnit::Single(3)));
    let short_year = hebrew(5780, HebrewMonth::Elul, 5);
    assert_eq!(diaspora.limud(short_year), Some(PirkeiAvosUnit::Combined(1, 2)));
    let interval = diaspora.locate(short_year).expect("an interval");
    assert_eq!(interval.iteration, 19);
}

#[test]
fn a_date_can_be_asked_for_its_unit() {
    let date = gregorian(2020, 1, 5);
    assert_eq!(
        date.limud(DafYomiBavli::default()),
        Some(Daf { tractate: Tractate::Berachos, page: 2 })
    );
    assert_eq!(date.limud(DafYomiBavli::default()), DafYomiBavli::default().limud(date));
    assert_eq!(gregorian(1920, 1, 1).limud(MishnaYomis), None);
}

#[test]
fn days_of_the_month_outside_the_table_have_no_reading() {
    let date = hebrew(5778, HebrewMonth::Shevat, 30);
    let interval = TehillimMonthly.locate(date).expect("an interval");
    assert_eq!(interval.iteration, 30);
    let beyond = Interval { iteration: 31, ..interval };
    assert_eq!(TehillimMonthly.unit_for_interval(&beyond, &date), None);
    let below = Interval { iteration: 0, ..interval };
    assert_eq!(TehillimMonthly.unit_for_interval(&below, &date), None);
    let second = Interval { iteration: 2, ..interval };
    assert_eq!(
        TehillimMonthly.unit_for_interval(&second, &date),
        Some(TehillimUnit::Psalms { start: 10, end: 17 })
    );
    let day_24 = Interval { iteration: 24, ..interval };
    assert_eq!(
        TehillimMonthly.unit_for_interval(&day_24, &date),
        Some(TehillimUnit::Psalms { start: 113, end: 118 })
    );
    let day_27 = Interval { iteration: 27, ..interval };
    assert_eq!(
        TehillimMonthly.unit_for_interval(&day_27, &date),
        Some(TehillimUnit::Psalms { start: 120, end: 134 })
    );
}

#[test]
fn intervals_with_numbers_outside_the_sequence_have_no_unit() {
    let date = gregorian(2020, 1, 5);
    let interval = DafHashavuaBavli::default().locate(date).expect("an interval");
    let beyond = Interval { iteration: 2712, ..interval };
    assert_eq!(DafHashavuaBavli::default().unit_for_interval(&beyond, &date), None);
    let last = Interval { iteration: 2711, ..interval };
    assert_eq!(
        DafHashavuaBavli::default().unit_for_interval(&last, &date),
        Some(Daf { tractate: Tractate::Niddah, page: 73 })
    );
    let below = Interval { iteration: 0, ..interval };
    assert_eq!(DafHashavuaBavli::default().unit_for_interval(&below, &date), None);
    assert_eq!(MishnaYomis.unit_for_interval(&below, &date), None);
    let past_the_end = Interval { iteration: 2097, ..interval };
    assert_eq!(MishnaYomis.unit_for_interval(&past_the_end, &date), None);
    assert_eq!(PirkeiAvos::new(true).unit_for_interval(&below, &date), None);
    let bavli = DafYomiBavli::default().locate(date).expect("an interval");
    let earlier = date.add_days(-1).unwrap();
    assert_eq!(DafYomiBavli::default().unit_for_interval(&bavli, &earlier), None);
    let later = date.add_days(2711).unwrap();
    assert_eq!(DafYomiBavli::default().unit_for_interval(&bavli, &later), None);
}

#[test]
fn weeks_that_end_on_the_eighth_or_ninth_of_av_take_their_chapter() {
    let diaspora = PirkeiAvos::new(false);
    let israel = PirkeiAvos::new(true);
    let ninth = hebrew(5778, HebrewMonth::Av, 9);
    assert_eq!(ninth, gregorian(2018, 7, 21));
    assert_eq!(ninth.day_of_week_number(), 7);
    let week = diaspora.locate(ninth).expect("an interval");
    assert_eq!(week.end_date, ninth);
    assert!(!diaspora.is_skip_interval(&week));
    assert!(!israel.is_skip_interval(&week));
    assert_eq!(week.iteration, 15);
    assert_eq!(diaspora.limud(ninth), Some(PirkeiAvosUnit::Single(3)));
    assert_eq!(israel.limud(ninth), Some(PirkeiAvosUnit::Single(4)));
    assert_eq!(diaspora.limud(hebrew(5778, HebrewMonth::Av, 3)), Some(PirkeiAvosUnit::Single(3)));
    assert_eq!(diaspora.limud(hebrew(5778, HebrewMonth::Av, 10)), Some(PirkeiAvosUnit::Single(4)));
    assert_eq!(israel.limud(hebrew(5778, HebrewMonth::Av, 16)), Some(PirkeiAvosUnit::Single(5)));
    assert_eq!(diaspora.limud(hebrew(5778, HebrewMonth::Elul, 1)), Some(PirkeiAvosUnit::Single(1)));
    assert_eq!(israel.limud(hebrew(5778, HebrewMonth::Elul, 1)), Some(PirkeiAvosUnit::Single(2)));
    let eighth = hebrew(5781, HebrewMonth::Av, 8);
    assert_eq!(eighth, gregorian(2021, 7, 17));
    assert_eq!(eighth.day_of_week_number(), 7);
    let week = diaspora.locate(eighth).expect("an interval");
    assert_eq!(week.end_date, eighth);
    assert!(!diaspora.is_skip_interval(&week));
    assert_eq!(diaspora.limud(eighth), Some(PirkeiAvosUnit::Single(3)));
    assert_eq!(israel.limud(eighth), Some(PirkeiAvosUnit::Single(3)));
    assert_eq!(diaspora.limud(hebrew(5781, HebrewMonth::Av, 9)), Some(PirkeiAvosUnit::Single(4)));
    assert_eq!(diaspora.limud(hebrew(5785, HebrewMonth::Av, 8)), Some(PirkeiAvosUnit::Single(3)));
    assert_eq!(diaspora.limud(hebrew(5785, HebrewMonth::Elul, 1)), Some(PirkeiAvosUnit::Single(1)));
}

#[test]
fn the_fourth_reading_takes_every_chapter_once() {
    let diaspora = PirkeiAvos::new(false);
    let israel = PirkeiAvos::new(true);
    let saturday = |day: u8| hebrew(5778, HebrewMonth::Elul, day);
    assert_eq!(diaspora.limud(saturday(7)), Some(PirkeiAvosUnit::Single(1)));
    assert_eq!(diaspora.limud(saturday(14)), Some(PirkeiAvosUnit::Single(2)));
    assert_eq!(diaspora.limud(saturday(21)), Some(PirkeiAvosUnit::Combined(3, 4)));
    assert_eq!(diaspora.limud(saturday(28)), Some(PirkeiAvosUnit::Combined(5, 6)));
    assert_eq!(
        israel.limud(hebrew(5778, HebrewMonth::Av, 30)),
        Some(PirkeiAvosUnit::Single(1))
    );
    assert_eq!(israel.limud(saturday(7)), Some(PirkeiAvosUnit::Single(2)));
    assert_eq!(israel.limud(saturday(14)), Some(PirkeiAvosUnit::Single(3)));
    assert_eq!(israel.limud(saturday(21)), Some(PirkeiAvosUnit::Single(4)));
    assert_eq!(israel.limud(saturday(28)), Some(PirkeiAvosUnit::Combined(5, 6)));
    assert_eq!(diaspora.limud(saturday(15)), diaspora.limud(saturday(20)));
    assert_eq!(diaspora.limud(saturday(15)), Some(PirkeiAvosUnit::Combined(3, 4)));
}

fn study_days(first: HebrewDate, last: HebrewDate) -> i64 {
    let fasts = limudim::daf_yomi_yerushalmi::found_skips_between(first, last) as i64
        + if limudim::holidays::is_fast_day(&first) { 1 } else { 0 };
    first.days_until(&last) + 1 - fasts
}

#[test]
fn a_cycle_of_the_jerusalem_page_has_a_day_of_study_for_each_page() {
    let calculator = DafYomiYerushalmi::default();
    let mut date = gregorian(1980, 2, 2);
    for number in 1..=12 {
        let cycle = calculator.find_cycle(date).expect("a cycle");
        assert_eq!(cycle.iteration, Some(number));
        assert_eq!(cycle.start_date, date);
        assert_eq!(study_days(cycle.start_date, cycle.end_date), 1554);
        assert!(!limudim::holidays::is_fast_day(&cycle.end_date));
        assert_eq!(
            calculator.limud(cycle.end_date),
            Some(Daf { tractate: Tractate::Niddah, page: 13 })
        );
        date = cycle.end_date.add_days(1).unwrap();
    }
    assert_eq!(gregorian(1984, 5, 12), calculator.find_cycle(gregorian(1980, 2, 2)).unwrap().end_date);
}

#[test]
fn a_fast_day_on_the_first_day_added_to_a_cycle_is_made_up() {
    let calculator = DafYomiYerushalmi::default();
    let last = gregorian(2172, 8, 7);
    let cycle = calculator.find_cycle(last).expect("a cycle");
    assert_eq!(cycle.iteration, Some(45));
    assert_eq!(cycle.start_date, gregorian(2168, 4, 28));
    assert_eq!(cycle.end_date, last);
    assert_eq!(study_days(cycle.start_date, cycle.end_date), 1554);
    assert_eq!(calculator.limud(last), Some(Daf { tractate: Tractate::Niddah, page: 13 }));
    assert_eq!(
        calculator.limud(last.add_days(-1).unwrap()),
        Some(Daf { tractate: Tractate::Niddah, page: 12 })
    );
    assert_eq!(
        calculator.limud(last.add_days(1).unwrap()),
        Some(Daf { tractate: Tractate::Berachos, page: 1 })
    );
}

#[test]
fn a_cycle_that_starts_on_a_fast_day_starts_its_pages_the_day_after() {
    let calculator = DafYomiYerushalmi::default();
    let first = gregorian(2236, 10, 10);
    assert!(limudim::holidays::is_fast_day(&first));
    assert_eq!(
        calculator.limud(first.add_days(-1).unwrap()),
        Some(Daf { tractate: Tractate::Niddah, page: 13 })
    );
    let cycle = calculator.find_cycle(first).expect("a cycle");
    assert_eq!(cycle.iteration, Some(61));
    assert_eq!(cycle.start_date, first);
    assert_eq!(cycle.end_date, gregorian(2241, 1, 19));
    assert_eq!(calculator.resolve(first), Err(ResolveError::NoUnitScheduled));
    assert_eq!(
        calculator.limud(first.add_days(1).unwrap()),
        Some(Daf { tractate: Tractate::Berachos, page: 1 })
    );
    assert_eq!(
        calculator.limud(first.add_days(2).unwrap()),
        Some(Daf { tractate: Tractate::Berachos, page: 2 })
    );
    assert_eq!(study_days(cycle.start_date, cycle.end_date), 1554);
    assert_eq!(
        calculator.limud(cycle.end_date),
        Some(Daf { tractate: Tractate::Niddah, page: 13 })
    );
}
