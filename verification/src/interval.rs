//! Intervals: the subdivisions of a cycle, each with at most one unit.

use crate::cycle::{Cycle, CycleView};
use crate::date::{day_in_range, HebrewDate};
use crate::limud_calculator::{ResolveError, SchedulePolicy};
use vstd::prelude::*;

verus! {

/// A subdivision of a cycle, from its first to its last day, with its
/// number among the intervals of the cycle that take a unit: the first
/// interval of a cycle has the number 1.
#[derive(Clone, Copy, Debug)]
pub struct Interval {
    pub start_date: HebrewDate,
    pub end_date: HebrewDate,
    pub iteration: i32,
    pub cycle: Cycle,
}

/// An interval as mathematics.
pub struct IntervalView {
    pub start: int,
    pub end: int,
    pub iteration: int,
    pub cycle: CycleView,
}

impl View for Interval {
    type V = IntervalView;

    open spec fn view(&self) -> IntervalView {
        IntervalView {
            start: self.start_date@,
            end: self.end_date@,
            iteration: self.iteration as int,
            cycle: self.cycle@,
        }
    }
}

impl IntervalView {
    /// Whether this interval ends no earlier than it starts, lies in its
    /// cycle, and has a number from 1.
    pub open spec fn well_formed(self) -> bool {
        self.cycle.start <= self.start <= self.end <= self.cycle.end && self.iteration >= 1
    }

    /// Whether the day numbered `date` lies in this interval.
    pub open spec fn contains(self, date: int) -> bool {
        self.start <= date <= self.end
    }
}

/// The two ways of going from an interval to the one after it.
#[derive(Clone, Copy, Debug, PartialEq, Eq, Structural)]
pub enum Transition {
    /// The interval left behind took a unit: the next one has the next number.
    Continue,
    /// The interval left behind took no unit: the next one has its number.
    Skip,
}

/// The view of an interval that was looked for, or the reason why none was
/// found.
pub open spec fn interval_outcome(r: Result<Interval, ResolveError>) -> Result<
    IntervalView,
    ResolveError,
> {
    match r {
        Ok(interval) => Ok(interval@),
        Err(e) => Err(e),
    }
}

/// The first interval of `cycle`, under the policy's rule for the end of an
/// interval.
pub open spec fn first_interval<T, P: SchedulePolicy<T>>(cycle: CycleView) -> Result<
    IntervalView,
    ResolveError,
> {
    match P::interval_end_rule(cycle, cycle.start) {
        Some(end) => Ok(IntervalView { start: cycle.start, end, iteration: 1, cycle }),
        None => Err(ResolveError::DateAlgebraOverflow),
    }
}

/// The interval that follows `interval` in its cycle: it starts on the next
/// day, and it has the next number after a `Continue` and the same number
/// after a `Skip`. The last interval of a cycle has no successor.
pub open spec fn next_interval<T, P: SchedulePolicy<T>>(
    interval: IntervalView,
    transition: Transition,
) -> Result<IntervalView, ResolveError> {
    if interval.end >= interval.cycle.end {
        Err(ResolveError::InternalInconsistency)
    } else if !day_in_range(interval.end + 1) {
        Err(ResolveError::DateAlgebraOverflow)
    } else {
        match P::interval_end_rule(interval.cycle, interval.end + 1) {
            Some(end) => Ok(
                IntervalView {
                    start: interval.end + 1,
                    end,
                    iteration: match transition {
                        Transition::Continue => interval.iteration + 1,
                        Transition::Skip => interval.iteration,
                    },
                    cycle: interval.cycle,
                },
            ),
            None => Err(ResolveError::DateAlgebraOverflow),
        }
    }
}

impl Interval {
    /// The first interval of `cycle`.
    pub fn first_for_cycle<T, P: SchedulePolicy<T>>(cycle: Cycle) -> (r: Result<
        Interval,
        ResolveError,
    >)
        ensures
            interval_outcome(r) == first_interval::<T, P>(cycle@),
            r matches Ok(interval) ==> interval.cycle == cycle,
    {
        let start_date = cycle.start_date;
        match P::interval_end_calculation(cycle, start_date) {
            Some(end_date) => Ok(Interval { start_date, end_date, iteration: 1, cycle }),
            None => Err(ResolveError::DateAlgebraOverflow),
        }
    }

    /// The interval after this one, where this one took a unit.
    pub fn next<T, P: SchedulePolicy<T>>(&self) -> (r: Result<Interval, ResolveError>)
        requires
            self.iteration < i32::MAX,
        ensures
            interval_outcome(r) == next_interval::<T, P>(self@, Transition::Continue),
            r matches Ok(interval) ==> interval.cycle == self.cycle,
    {
        self.advance::<T, P>(Transition::Continue)
    }

    /// The interval after this one, where this one took no unit.
    pub fn skip<T, P: SchedulePolicy<T>>(&self) -> (r: Result<Interval, ResolveError>)
        ensures
            interval_outcome(r) == next_interval::<T, P>(self@, Transition::Skip),
            r matches Ok(interval) ==> interval.cycle == self.cycle,
    {
        self.advance::<T, P>(Transition::Skip)
    }

    /// The interval after this one, by the given transition.
    pub fn advance<T, P: SchedulePolicy<T>>(&self, transition: Transition) -> (r: Result<
        Interval,
        ResolveError,
    >)
        requires
            transition == Transition::Continue ==> self.iteration < i32::MAX,
        ensures
            interval_outcome(r) == next_interval::<T, P>(self@, transition),
            r matches Ok(interval) ==> interval.cycle == self.cycle,
    {
        if self.end_date.day_number() >= self.cycle.end_date.day_number() {
            return Err(ResolveError::InternalInconsistency);
        }
        let new_iteration = match transition {
            Transition::Continue => self.iteration + 1,
            Transition::Skip => self.iteration,
        };
        let new_start_date = match self.end_date.add_days(1) {
            Some(date) => date,
            None => {
                return Err(ResolveError::DateAlgebraOverflow);
            },
        };
        match P::interval_end_calculation(self.cycle, new_start_date) {
            Some(new_end_date) => Ok(
                Interval {
                    start_date: new_start_date,
                    end_date: new_end_date,
                    iteration: new_iteration,
                    cycle: self.cycle,
                },
            ),
            None => Err(ResolveError::DateAlgebraOverflow),
        }
    }

    /// Whether `date` lies in this interval.
    pub fn contains(&self, date: HebrewDate) -> (b: bool)
        ensures
            b == self@.contains(date@),
    {
        let day = date.day_number();
        self.start_date.day_number() <= day && day <= self.end_date.day_number()
    }
}

} // verus!
