//! The lengths of the cycles and the days on which the first cycles start.

use vstd::prelude::*;

verus! {

/// The number of half-pages in a cycle of the daily half-page.
pub const BAVLI_TOTAL_AMUDIM: i32 = 5406;

/// The number of pages in a cycle of the daily page, for the cycles before
/// one tractate was studied in more pages.
pub const BAVLI_DAF_COUNT_EARLY: i32 = 2702;

/// The number of pages in a cycle of the daily page, from the cycle in which
/// one tractate was first studied in more pages.
pub const BAVLI_DAF_COUNT_MODERN: i32 = 2711;

/// The number of pages in a cycle of the daily page of the Jerusalem Talmud.
pub const YERUSHALMI_DAF_COUNT: i32 = 1554;

/// The number of days from the first to the last day of a cycle of the
/// daily Mishna, which takes two paragraphs a day.
pub const MISHNA_YOMIS_CYCLE_DAYS: i32 = 2095;

/// The number of the first cycle in which Shekalim has 22 pages, not 13.
pub const SHEKALIM_EXPANSION_CYCLE: i32 = 8;

/// The day number of 11 September 1923, on which the first cycle of the
/// daily page started.
pub const DAF_YOMI_BAVLI_START: i64 = 702_249;

/// The day number of 2 February 1980, on which the first cycle of the daily
/// page of the Jerusalem Talmud started.
pub const DAF_YOMI_YERUSHALMI_START: i64 = 722_847;

/// The day number of 16 October 2023, on which the first cycle of the daily
/// half-page started.
pub const AMUD_YOMI_BAVLI_DIRSHU_START: i64 = 738_809;

/// The day number of 6 March 2005, on which the first cycle of the weekly
/// page started.
pub const DAF_HASHAVUA_BAVLI_START: i64 = 732_011;

/// The day number of 20 May 1947, on which the first cycle of the daily
/// Mishna started.
pub const MISHNA_YOMIS_START: i64 = 710_901;

} // verus!
