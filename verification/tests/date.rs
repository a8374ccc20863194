use limudim::constants::{
    AMUD_YOMI_BAVLI_DIRSHU_START, DAF_HASHAVUA_BAVLI_START, DAF_YOMI_BAVLI_START,
    DAF_YOMI_YERUSHALMI_START, MISHNA_YOMIS_START,
};
use limudim::date::{
    from_gregorian_date, from_hebrew_date, HebrewDate, HebrewMonth, Weekday, MAX_DAY_NUMBER,
    MIN_DAY_NUMBER,
};
use limudim::holidays::{is_fast_day, is_tishah_bav, is_yom_kippur};

fn gregorian(year: i32, month: u8, day: u8) -> HebrewDate {
    from_gregorian_date(year, month, day).expect("valid gregorian date")
}

#[test]
fn day_numbers_count_from_the_first_day_of_year_one() {
    assert_eq!(gregorian(1, 1, 1).day_number(), 1);
    assert_eq!(gregorian(1, 1, 2).day_number(), 2);
    assert_eq!(gregorian(2000, 1, 2).day_number(), 730_121);
}

#[test]
fn anchors_are_the_days_that_their_names_say() {
    assert_eq!(gregorian(1923, 9, 11).day_number(), DAF_YOMI_BAVLI_START);
    assert_eq!(gregorian(1980, 2, 2).day_number(), DAF_YOMI_YERUSHALMI_START);
    assert_eq!(gregorian(2023, 10, 16).day_number(), AMUD_YOMI_BAVLI_DIRSHU_START);
    assert_eq!(gregorian(2005, 3, 6).day_number(), DAF_HASHAVUA_BAVLI_START);
    assert_eq!(gregorian(1947, 5, 20).day_number(), MISHNA_YOMIS_START);
}

#[test]
fn gregorian_dates_that_do_not_exist_are_refused() {
    assert!(from_gregorian_date(2021, 2, 29).is_none());
    assert!(from_gregorian_date(2021, 13, 1).is_none());
    assert!(from_gregorian_date(2021, 0, 1).is_none());
    assert!(from_gregorian_date(2021, 4, 31).is_none());
    assert!(from_gregorian_date(2021, 4, 0).is_none());
    assert!(from_gregorian_date(2020, 2, 29).is_some());
}

#[test]
fn hebrew_dates_that_do_not_exist_are_refused() {
    assert!(from_hebrew_date(5785, HebrewMonth::Shevat, 50).is_none());
    assert!(from_hebrew_date(5785, HebrewMonth::Teves, 30).is_none());
    assert!(from_hebrew_date(5785, HebrewMonth::AdarI, 1).is_none());
    assert!(from_hebrew_date(5784, HebrewMonth::AdarI, 1).is_some());
}

#[test]
fn hebrew_and_gregorian_dates_meet() {
    assert_eq!(
        from_hebrew_date(5781, HebrewMonth::Teves, 26).unwrap(),
        gregorian(2021, 1, 10)
    );
    assert_eq!(
        from_hebrew_date(5782, HebrewMonth::AdarI, 9).unwrap(),
        gregorian(2022, 2, 10)
    );
    assert_eq!(
        from_hebrew_date(5782, HebrewMonth::Adar, 7).unwrap(),
        gregorian(2022, 3, 10)
    );
    assert_eq!(
        from_hebrew_date(5779, HebrewMonth::Tishrei, 1).unwrap(),
        gregorian(2018, 9, 10)
    );
}

#[test]
fn hebrew_fields_of_a_date() {
    let date = gregorian(2022, 2, 10);
    assert_eq!(date.hebrew_year(), 5782);
    assert_eq!(date.hebrew_month(), HebrewMonth::AdarI);
    assert_eq!(date.day_of_month(), 9);
    assert_eq!(date.days_in_month(), 30);
    let date = gregorian(2018, 1, 16);
    assert_eq!(date.hebrew_year(), 5778);
    assert_eq!(date.hebrew_month(), HebrewMonth::Teves);
    assert_eq!(date.day_of_month(), 29);
    assert_eq!(date.days_in_month(), 29);
    let date = gregorian(2021, 7, 25);
    assert_eq!(date.hebrew_month(), HebrewMonth::Av);
    assert_eq!(date.day_of_month(), 16);
}

#[test]
fn every_month_comes_back_from_its_code() {
    let months = [
        HebrewMonth::Tishrei,
        HebrewMonth::Cheshvan,
        HebrewMonth::Kislev,
        HebrewMonth::Teves,
        HebrewMonth::Shevat,
        HebrewMonth::AdarI,
        HebrewMonth::Adar,
        HebrewMonth::Nissan,
        HebrewMonth::Iyar,
        HebrewMonth::Sivan,
        HebrewMonth::Tammuz,
        HebrewMonth::Av,
        HebrewMonth::Elul,
    ];
    for month in months {
        let (number, added) = month.code();
        assert_eq!(HebrewMonth::from_code(number, added), month);
        let date = from_hebrew_date(5784, month, 1).expect("5784 is a leap year");
        assert_eq!(date.hebrew_month(), month);
        assert_eq!(date.hebrew_year(), 5784);
        assert_eq!(date.day_of_month(), 1);
    }
}

#[test]
fn add_days_moves_by_days() {
    let date = gregorian(2020, 2, 28);
    assert_eq!(date.add_days(0).unwrap(), date);
    assert_eq!(date.add_days(1).unwrap(), gregorian(2020, 2, 29));
    assert_eq!(date.add_days(2).unwrap(), gregorian(2020, 3, 1));
    assert_eq!(date.add_days(-28).unwrap(), gregorian(2020, 1, 31));
    assert_eq!(date.add_days(2701).unwrap().day_number(), date.day_number() + 2701);
}

#[test]
fn add_days_fails_beyond_the_range_of_dates() {
    let last = HebrewDate::from_day_number(MAX_DAY_NUMBER).expect("the last day is in range");
    assert!(last.add_days(1).is_none());
    assert_eq!(last.add_days(-1).unwrap().day_number(), MAX_DAY_NUMBER - 1);
    assert_eq!(
        last.add_days(-1).unwrap().add_days(1).unwrap().day_number(),
        MAX_DAY_NUMBER
    );
    let first = HebrewDate::from_day_number(MIN_DAY_NUMBER).expect("the first day is in range");
    assert!(first.add_days(-1).is_none());
    assert_eq!(first.add_days(1).unwrap().day_number(), MIN_DAY_NUMBER + 1);
    assert_eq!(
        first.add_days(1).unwrap().add_days(-1).unwrap().day_number(),
        MIN_DAY_NUMBER
    );
    assert!(first.add_days(i32::MAX).is_none());
    assert!(last.add_days(i32::MIN).is_none());
}

#[test]
fn day_numbers_out_of_range_make_no_date() {
    assert!(HebrewDate::from_day_number(MAX_DAY_NUMBER + 1).is_none());
    assert!(HebrewDate::from_day_number(MIN_DAY_NUMBER - 1).is_none());
    assert!(HebrewDate::from_day_number(i64::MAX).is_none());
    assert_eq!(HebrewDate::from_day_number(0).unwrap().day_number(), 0);
    assert_eq!(HebrewDate::on_day(738_809).day_number(), 738_809);
}

#[test]
fn days_until_is_signed() {
    let a = gregorian(2020, 1, 1);
    let b = gregorian(2025, 10, 2);
    assert_eq!(a.days_until(&b), 2101);
    assert_eq!(b.days_until(&a), -2101);
    assert_eq!(a.days_until(&a), 0);
    let first = HebrewDate::from_day_number(MIN_DAY_NUMBER).unwrap();
    let last = HebrewDate::from_day_number(MAX_DAY_NUMBER).unwrap();
    assert_eq!(first.days_until(&last), MAX_DAY_NUMBER - MIN_DAY_NUMBER);
    assert_eq!(last.days_until(&first), MIN_DAY_NUMBER - MAX_DAY_NUMBER);
}

#[test]
fn weekdays_of_known_dates() {
    assert_eq!(gregorian(2021, 6, 23).weekday(), Weekday::Wednesday);
    assert_eq!(gregorian(1983, 2, 2).weekday(), Weekday::Wednesday);
    assert_eq!(gregorian(2020, 1, 21).weekday(), Weekday::Tuesday);
    assert_eq!(gregorian(2005, 3, 6).weekday(), Weekday::Sunday);
    assert_eq!(gregorian(2005, 3, 6).day_of_week_number(), 1);
    assert_eq!(gregorian(2005, 3, 12).weekday(), Weekday::Saturday);
    assert_eq!(gregorian(2005, 3, 12).day_of_week_number(), 7);
    assert_eq!(HebrewDate::from_day_number(0).unwrap().weekday(), Weekday::Sunday);
    assert_eq!(HebrewDate::from_day_number(-1).unwrap().weekday(), Weekday::Saturday);
    assert_eq!(HebrewDate::from_day_number(-1).unwrap().day_of_week_number(), 7);
}

#[test]
fn weekday_numbers_follow_the_days() {
    let mut date = gregorian(2024, 2, 25);
    for expected in [1, 2, 3, 4, 5, 6, 7, 1, 2] {
        assert_eq!(date.day_of_week_number(), expected);
        date = date.add_days(1).unwrap();
    }
}

#[test]
fn the_day_of_atonement_is_a_fast_day() {
    let date = from_hebrew_date(5778, HebrewMonth::Tishrei, 10).unwrap();
    assert!(is_yom_kippur(&date));
    assert!(!is_tishah_bav(&date));
    assert!(is_fast_day(&date));
    assert!(!is_fast_day(&date.add_days(1).unwrap()));
    assert!(!is_fast_day(&date.add_days(-1).unwrap()));
    assert!(!is_yom_kippur(&from_hebrew_date(5778, HebrewMonth::Av, 10).unwrap()));
}

#[test]
fn the_ninth_of_av_is_a_fast_day_unless_it_is_a_saturday() {
    let ninth = from_hebrew_date(5760, HebrewMonth::Av, 9).unwrap();
    assert_eq!(ninth, gregorian(2000, 8, 10));
    assert!(is_tishah_bav(&ninth));
    assert!(is_fast_day(&ninth));
    assert!(!is_fast_day(&ninth.add_days(1).unwrap()));
    let saturday = from_hebrew_date(5778, HebrewMonth::Av, 9).unwrap();
    assert_eq!(saturday.weekday(), Weekday::Saturday);
    assert!(!is_tishah_bav(&saturday));
    assert!(!is_fast_day(&saturday));
    let sunday = saturday.add_days(1).unwrap();
    assert_eq!(sunday, gregorian(2018, 7, 22));
    assert!(is_tishah_bav(&sunday));
    assert!(is_fast_day(&sunday));
    assert!(!is_fast_day(&from_hebrew_date(5760, HebrewMonth::Elul, 9).unwrap()));
}

#[test]
fn dates_are_ordered_by_their_days() {
    let earlier = gregorian(2020, 2, 29);
    let later = gregorian(2020, 3, 1);
    assert!(earlier < later);
    assert!(later > earlier);
    assert!(earlier <= earlier);
    assert_eq!(earlier.max(later), later);
    assert!(from_hebrew_date(5780, HebrewMonth::Elul, 29).unwrap() < from_hebrew_date(5781, HebrewMonth::Tishrei, 1).unwrap());
    assert!(from_hebrew_date(5784, HebrewMonth::AdarI, 30).unwrap() < from_hebrew_date(5784, HebrewMonth::Adar, 1).unwrap());
}
