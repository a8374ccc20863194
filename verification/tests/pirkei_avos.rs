use limudim::date::{HebrewDate, HebrewMonth};
use limudim::{LimudCalculator, PirkeiAvos, PirkeiAvosUnit};

fn from_hebrew_date(year: i32, month: HebrewMonth, day: u8) -> HebrewDate {
    limudim::date::from_hebrew_date(year, month, day).expect("valid hebrew date")
}

#[test]
fn test_simple_date() {
    // 1st of Sivan 5778
    let test_date = from_hebrew_date(5778, HebrewMonth::Sivan, 1);
    let calculator = PirkeiAvos::new(false);
    let limud = calculator.limud(test_date).expect("limud exists");
    assert_eq!(limud, PirkeiAvosUnit::Single(6));
}

#[test]
fn test_near_end_of_cycle() {
    // 20th of Elul 5778
    let test_date = from_hebrew_date(5778, HebrewMonth::Elul, 20);
    let calculator = PirkeiAvos::new(false);
    let limud = calculator.limud(test_date).expect("limud exists");
    assert_eq!(limud, PirkeiAvosUnit::Combined(3, 4));
}

#[test]
fn test_after_cycle_completes() {
    // 29th of Elul 5778
    let test_date = from_hebrew_date(5778, HebrewMonth::Elul, 29);
    let calculator = PirkeiAvos::new(false);
    let limud = calculator.limud(test_date);
    assert!(limud.is_none());
}

#[test]
fn test_before_cycle_starts() {
    // 20th of Nissan 5778
    let test_date = from_hebrew_date(5778, HebrewMonth::Nissan, 20);
    let calculator = PirkeiAvos::new(false);
    let limud = calculator.limud(test_date);
    assert!(limud.is_none());
}

#[test]
fn test_8th_day_pesach_outside_israel() {
    // 22nd of Nissan 5778
    let test_date = from_hebrew_date(5778, HebrewMonth::Nissan, 22);
    let calculator = PirkeiAvos::new(false);
    let limud = calculator.limud(test_date);
    assert!(limud.is_none());
}

#[test]
fn test_day_after_pesach_outside_israel() {
    // 23rd of Nissan 5778
    let test_date = from_hebrew_date(5778, HebrewMonth::Nissan, 23);
    let calculator = PirkeiAvos::new(false);
    let limud = calculator.limud(test_date).expect("limud exists");
    assert_eq!(limud, PirkeiAvosUnit::Single(1));
}

#[test]
fn test_compounding_before_cycle_end_outside_israel() {
    // 14th of Elul 5778
    let test_date = from_hebrew_date(5778, HebrewMonth::Elul, 14);
    let calculator = PirkeiAvos::new(false);
    let limud = calculator.limud(test_date).expect("limud exists");
    assert_eq!(limud, PirkeiAvosUnit::Single(2));

    // 15th of Elul 5778
    let test_date2 = from_hebrew_date(5778, HebrewMonth::Elul, 15);
    let limud2 = calculator.limud(test_date2).expect("limud exists");
    assert_eq!(limud2, PirkeiAvosUnit::Combined(3, 4));
}

#[test]
fn test_8th_day_pesach_in_israel() {
    // 22nd of Nissan 5778 (Shabbos)
    let test_date = from_hebrew_date(5778, HebrewMonth::Nissan, 22);
    let calculator = PirkeiAvos::new(true);
    let limud = calculator.limud(test_date).expect("limud exists");
    // In Israel, cycle starts on 22nd, and if it's Shabbos, that's the first interval
    assert_eq!(limud, PirkeiAvosUnit::Single(1));
}

#[test]
fn test_day_after_pesach_in_israel() {
    // 23rd of Nissan 5778
    let test_date = from_hebrew_date(5778, HebrewMonth::Nissan, 23);
    let calculator = PirkeiAvos::new(true);
    let limud = calculator.limud(test_date).expect("limud exists");
    assert_eq!(limud, PirkeiAvosUnit::Single(2));
}

#[test]
fn test_compounding_before_cycle_end_in_israel() {
    // 21st of Elul 5778
    let test_date = from_hebrew_date(5778, HebrewMonth::Elul, 21);
    let calculator = PirkeiAvos::new(true);
    let limud = calculator.limud(test_date).expect("limud exists");
    assert_eq!(limud, PirkeiAvosUnit::Single(4));
}

#[test]
fn test_7_sivan_on_shabbos_outside_israel() {
    // 5769 - Sivan 7 falls on Shabbos outside Israel
    // 3rd of Sivan 5769
    let test_date = from_hebrew_date(5769, HebrewMonth::Sivan, 3);
    let calculator = PirkeiAvos::new(false);
    let limud = calculator.limud(test_date);
    // This interval should be skipped, returning None for the unit
    // A skipped interval has no unit
    assert!(limud.is_none());
}

#[test]
fn test_iteration_following_7_sivan_on_shabbos_outside_israel() {
    // 8th of Sivan 5769
    let test_date = from_hebrew_date(5769, HebrewMonth::Sivan, 8);
    let calculator = PirkeiAvos::new(false);
    let limud = calculator.limud(test_date).expect("limud exists");
    assert_eq!(limud, PirkeiAvosUnit::Single(1));
}

#[test]
fn test_7_sivan_on_shabbos_in_israel() {
    // 3rd of Sivan 5769
    let test_date = from_hebrew_date(5769, HebrewMonth::Sivan, 3);
    let calculator = PirkeiAvos::new(true);
    let limud = calculator.limud(test_date).expect("limud exists");
    assert_eq!(limud, PirkeiAvosUnit::Single(1));
}

#[test]
fn test_iteration_following_7_sivan_on_shabbos_in_israel() {
    // 8th of Sivan 5769
    let test_date = from_hebrew_date(5769, HebrewMonth::Sivan, 8);
    let calculator = PirkeiAvos::new(true);
    let limud = calculator.limud(test_date).expect("limud exists");
    assert_eq!(limud, PirkeiAvosUnit::Single(2));
}

#[test]
fn test_generated_cases() {
    let cases: &[(i32, HebrewMonth, u8, bool, Option<PirkeiAvosUnit>)] = &[
        (5777, HebrewMonth::Nissan, 26, false, Some(PirkeiAvosUnit::Single(1))),
        (5777, HebrewMonth::Nissan, 26, true, Some(PirkeiAvosUnit::Single(1))),
        (5777, HebrewMonth::Iyar, 15, false, Some(PirkeiAvosUnit::Single(4))),
        (5777, HebrewMonth::Iyar, 15, true, Some(PirkeiAvosUnit::Single(4))),
        (5777, HebrewMonth::Sivan, 1, false, Some(PirkeiAvosUnit::Single(6))),
        (5777, HebrewMonth::Sivan, 2, false, Some(PirkeiAvosUnit::Single(6))),
        (5777, HebrewMonth::Sivan, 3, false, Some(PirkeiAvosUnit::Single(1))),
        (5777, HebrewMonth::Sivan, 10, false, Some(PirkeiAvosUnit::Single(2))),
        (5777, HebrewMonth::Elul, 1, false, Some(PirkeiAvosUnit::Single(1))),
        (5777, HebrewMonth::Elul, 15, false, Some(PirkeiAvosUnit::Combined(3, 4))),
        (5777, HebrewMonth::Elul, 25, false, Some(PirkeiAvosUnit::Combined(5, 6))),
        (5777, HebrewMonth::Elul, 1, true, Some(PirkeiAvosUnit::Single(1))),
        (5777, HebrewMonth::Elul, 15, true, Some(PirkeiAvosUnit::Combined(3, 4))),
        (5777, HebrewMonth::Elul, 25, true, Some(PirkeiAvosUnit::Combined(5, 6))),
        // 5778 - Nissan 22 is Shabbos
        (5778, HebrewMonth::Nissan, 29, false, Some(PirkeiAvosUnit::Single(1))),
        (5778, HebrewMonth::Nissan, 29, true, Some(PirkeiAvosUnit::Single(2))),
        (5778, HebrewMonth::Iyar, 15, false, Some(PirkeiAvosUnit::Single(4))),
        (5778, HebrewMonth::Iyar, 15, true, Some(PirkeiAvosUnit::Single(5))),
        (5778, HebrewMonth::Sivan, 1, false, Some(PirkeiAvosUnit::Single(6))),
        (5778, HebrewMonth::Sivan, 6, false, Some(PirkeiAvosUnit::Single(1))),
        (5778, HebrewMonth::Sivan, 13, false, Some(PirkeiAvosUnit::Single(2))),
        (5778, HebrewMonth::Elul, 1, false, Some(PirkeiAvosUnit::Single(1))),
        (5778, HebrewMonth::Elul, 15, false, Some(PirkeiAvosUnit::Combined(3, 4))),
        (5778, HebrewMonth::Elul, 25, false, Some(PirkeiAvosUnit::Combined(5, 6))),
        (5778, HebrewMonth::Elul, 1, true, Some(PirkeiAvosUnit::Single(2))),
        (5778, HebrewMonth::Elul, 15, true, Some(PirkeiAvosUnit::Single(4))),
        (5778, HebrewMonth::Elul, 25, true, Some(PirkeiAvosUnit::Combined(5, 6))),
        // 5779
        (5779, HebrewMonth::Nissan, 29, false, Some(PirkeiAvosUnit::Single(1))),
        (5779, HebrewMonth::Nissan, 29, true, Some(PirkeiAvosUnit::Single(2))),
        (5779, HebrewMonth::Iyar, 15, false, Some(PirkeiAvosUnit::Single(4))),
        (5779, HebrewMonth::Iyar, 15, true, Some(PirkeiAvosUnit::Single(5))),
        (5779, HebrewMonth::Sivan, 1, false, Some(PirkeiAvosUnit::Single(6))),
        (5779, HebrewMonth::Sivan, 6, false, Some(PirkeiAvosUnit::Single(1))),
        (5779, HebrewMonth::Sivan, 13, false, Some(PirkeiAvosUnit::Single(2))),
        (5779, HebrewMonth::Elul, 15, false, Some(PirkeiAvosUnit::Combined(3, 4))),
        (5779, HebrewMonth::Elul, 15, true, Some(PirkeiAvosUnit::Single(4))),
        // 5780 - Sivan 7 on Shabbos (skip interval)
        (5780, HebrewMonth::Nissan, 24, false, Some(PirkeiAvosUnit::Single(1))),
        (5780, HebrewMonth::Nissan, 24, true, Some(PirkeiAvosUnit::Single(1))),
        (5780, HebrewMonth::Sivan, 1, false, None), // Skip interval
        (5780, HebrewMonth::Sivan, 7, false, None), // Skip interval end
        (5780, HebrewMonth::Sivan, 8, false, Some(PirkeiAvosUnit::Single(1))),
        (5780, HebrewMonth::Elul, 1, false, Some(PirkeiAvosUnit::Single(6))),
        (5780, HebrewMonth::Elul, 15, false, Some(PirkeiAvosUnit::Combined(3, 4))),
        (5780, HebrewMonth::Elul, 25, false, None), // After cycle ends
        (5780, HebrewMonth::Elul, 1, true, Some(PirkeiAvosUnit::Single(1))),
        (5780, HebrewMonth::Elul, 15, true, Some(PirkeiAvosUnit::Combined(3, 4))),
        // 5781
        (5781, HebrewMonth::Nissan, 28, false, Some(PirkeiAvosUnit::Single(1))),
        (5781, HebrewMonth::Nissan, 28, true, Some(PirkeiAvosUnit::Single(1))),
        (5781, HebrewMonth::Iyar, 15, false, Some(PirkeiAvosUnit::Single(4))),
        (5781, HebrewMonth::Sivan, 5, false, Some(PirkeiAvosUnit::Single(1))),
        (5781, HebrewMonth::Sivan, 12, false, Some(PirkeiAvosUnit::Single(2))),
        (5781, HebrewMonth::Elul, 15, false, Some(PirkeiAvosUnit::Combined(3, 4))),
        // 5782
        (5782, HebrewMonth::Nissan, 29, false, Some(PirkeiAvosUnit::Single(1))),
        (5782, HebrewMonth::Nissan, 29, true, Some(PirkeiAvosUnit::Single(2))),
        (5782, HebrewMonth::Iyar, 15, true, Some(PirkeiAvosUnit::Single(5))),
        (5782, HebrewMonth::Sivan, 6, false, Some(PirkeiAvosUnit::Single(1))),
        (5782, HebrewMonth::Elul, 1, true, Some(PirkeiAvosUnit::Single(2))),
        (5782, HebrewMonth::Elul, 15, true, Some(PirkeiAvosUnit::Single(4))),
        // 5783 - Sivan 7 on Shabbos (skip interval)
        (5783, HebrewMonth::Nissan, 24, false, Some(PirkeiAvosUnit::Single(1))),
        (5783, HebrewMonth::Sivan, 1, false, None), // Skip interval
        (5783, HebrewMonth::Sivan, 7, false, None), // Skip interval end
        (5783, HebrewMonth::Sivan, 8, false, Some(PirkeiAvosUnit::Single(1))),
        (5783, HebrewMonth::Elul, 1, false, Some(PirkeiAvosUnit::Single(6))),
        (5783, HebrewMonth::Elul, 25, false, None), // After cycle ends
        (5783, HebrewMonth::Elul, 1, true, Some(PirkeiAvosUnit::Single(1))),
        // 5784
        (5784, HebrewMonth::Nissan, 26, false, Some(PirkeiAvosUnit::Single(1))),
        (5784, HebrewMonth::Nissan, 26, true, Some(PirkeiAvosUnit::Single(1))),
        (5784, HebrewMonth::Sivan, 3, false, Some(PirkeiAvosUnit::Single(1))),
        (5784, HebrewMonth::Sivan, 10, false, Some(PirkeiAvosUnit::Single(2))),
        (5784, HebrewMonth::Elul, 15, false, Some(PirkeiAvosUnit::Combined(3, 4))),
        (5784, HebrewMonth::Elul, 25, false, Some(PirkeiAvosUnit::Combined(5, 6))),
        // 5785
        (5785, HebrewMonth::Nissan, 28, false, Some(PirkeiAvosUnit::Single(1))),
        (5785, HebrewMonth::Nissan, 28, true, Some(PirkeiAvosUnit::Single(1))),
        (5785, HebrewMonth::Sivan, 5, false, Some(PirkeiAvosUnit::Single(1))),
        (5785, HebrewMonth::Sivan, 12, false, Some(PirkeiAvosUnit::Single(2))),
        (5785, HebrewMonth::Elul, 1, false, Some(PirkeiAvosUnit::Single(1))),
        (5785, HebrewMonth::Elul, 15, false, Some(PirkeiAvosUnit::Combined(3, 4))),
        (5785, HebrewMonth::Elul, 25, false, Some(PirkeiAvosUnit::Combined(5, 6))),
    ];

    for (year, month, day, in_israel, expected) in cases {
        let date = from_hebrew_date(*year, *month, *day);
        let calculator = PirkeiAvos::new(*in_israel);
        let result = calculator.limud(date);
        assert_eq!(
            result, *expected,
            "Failed for date: {}/{:?}/{} in_israel={}",
            year, month, day, in_israel
        );
    }
}
