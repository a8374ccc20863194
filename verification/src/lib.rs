//! Calculators for recurring study schedules: each maps a calendar date onto
//! the unit of text assigned to that date, or onto nothing where the
//! schedule rests.
//!
//! A schedule repeats in cycles, a cycle is divided into intervals, and an
//! interval takes one unit or, where the schedule rests, none. The engine
//! in [`limud_calculator`] finds the cycle and the interval of a date under
//! the policy of a schedule; the other modules hold the policies.

use vstd::prelude::*;

pub mod amud_yomi_bavli_dirshu;
pub mod constants;
pub mod cycle;
pub mod daf_hashavua_bavli;
pub mod daf_yomi_bavli;
pub mod daf_yomi_yerushalmi;
pub mod date;
pub mod holidays;
pub mod interval;
pub mod limud_calculator;
pub mod mishna_yomis;
pub mod pirkei_avos;
pub mod tehillim_monthly;
pub mod theorems;
pub mod units;

pub use amud_yomi_bavli_dirshu::AmudYomiBavliDirshu;
pub use cycle::Cycle;
pub use daf_hashavua_bavli::DafHashavuaBavli;
pub use daf_yomi_bavli::DafYomiBavli;
pub use daf_yomi_yerushalmi::DafYomiYerushalmi;
pub use date::{HebrewDate, HebrewMonth, Weekday};
pub use interval::{Interval, Transition};
pub use limud_calculator::{CycleFinder, LimudCalculator, ResolveError, SchedulePolicy};
pub use mishna_yomis::{MishnaYomis, Mishnas};
pub use pirkei_avos::{PirkeiAvos, PirkeiAvosUnit};
pub use tehillim_monthly::{TehillimMonthly, TehillimUnit};
pub use units::{Amud, AmudIter, Daf, Mishna, Side, Tractate};

verus! {

/// Asking a date for its unit under a schedule.
pub trait LimudCalendar {
    /// The day number of this date.
    spec fn day(&self) -> int;

    /// The unit of this date under `limud_calculator`, or nothing where the
    /// date has none.
    fn limud<T, C: LimudCalculator<T>>(&self, limud_calculator: C) -> (r: Option<T>)
        ensures
            r == limud_calculator::limud_of(limud_calculator, self.day()),
    ;
}

impl LimudCalendar for HebrewDate {
    open spec fn day(&self) -> int {
        self@
    }

    fn limud<T, C: LimudCalculator<T>>(&self, limud_calculator: C) -> (r: Option<T>) {
        limud_calculator.limud(*self)
    }
}

} // verus!
