//! The policy that describes one schedule, and the engine that resolves a
//! date under a policy.

use crate::cycle::{cycle_from_anchor, cycle_outcome, perpetual_cycle, Cycle, CycleView};
use crate::date::{day_of, days_left, HebrewDate};
use crate::interval::{
    first_interval,
    interval_outcome,
    next_interval,
    Interval,
    IntervalView,
    Transition,
};
use vstd::prelude::*;

verus! {

/// Where the cycles of a schedule come from.
#[derive(Clone, Copy, Debug)]
pub enum CycleFinder {
    /// The cycles are counted from a first cycle that starts on this date.
    Initial(HebrewDate),
    /// The cycle of a date is derived from the date alone.
    Perpetual,
}

/// Why a date has no unit.
#[derive(Clone, Copy, Debug, PartialEq, Eq, Structural)]
pub enum ResolveError {
    /// The date lies before the first cycle of the schedule.
    BeforeCycleStart,
    /// A date that the resolution needed is out of the range of dates.
    DateAlgebraOverflow,
    /// The intervals of the cycle ran out before the date was reached, or a
    /// successor was asked of a cycle that has none.
    InternalInconsistency,
    /// The schedule assigns nothing to the date.
    NoUnitScheduled,
}

/// The day number of the anchor of a cycle finder, if it has one.
pub open spec fn anchor_of(finder: CycleFinder) -> Option<int> {
    match finder {
        CycleFinder::Initial(date) => Some(date@),
        CycleFinder::Perpetual => None,
    }
}

/// The day numbers of the two dates of an optional pair.
pub open spec fn bounds_of(bounds: Option<(HebrewDate, HebrewDate)>) -> Option<(int, int)> {
    match bounds {
        Some((start, end)) => Some((start@, end@)),
        None => None,
    }
}

/// An iteration number as an integer.
pub open spec fn iteration_of(iteration: Option<i32>) -> Option<int> {
    match iteration {
        Some(n) => Some(n as int),
        None => None,
    }
}

/// The rules of one schedule. Each rule is stated twice: as a function of
/// mathematics, over day numbers, and as the method that computes it. Two
/// laws bind the rules: a cycle and an interval end no earlier than they
/// start.
pub trait SchedulePolicy<T>: Sized {
    /// The day on which the first cycle starts, for a schedule whose cycles
    /// are counted; nothing for one whose cycles are derived from the date.
    spec fn anchor(&self) -> Option<int>;

    /// The first and the last day of the cycle of `date`, for a schedule
    /// whose cycles are derived from the date.
    spec fn perpetual_cycle_rule(&self, date: int) -> Option<(int, int)>;

    /// The last day of the cycle that starts on `start` and has the given
    /// number, or nothing where that day is out of range.
    spec fn cycle_end_rule(start: int, iteration: Option<int>) -> Option<int>;

    /// The last day of the interval of `cycle` that starts on `start`, or
    /// nothing where that day is out of range.
    spec fn interval_end_rule(cycle: CycleView, start: int) -> Option<int>;

    /// Whether `interval` takes no unit.
    spec fn skip_rule(&self, interval: IntervalView) -> bool;

    /// The unit of `date` in `interval`, for an interval that takes one.
    spec fn unit_rule(&self, interval: IntervalView, date: int) -> Option<T>;

    /// A cycle ends no earlier than it starts.
    proof fn lemma_cycle_end_rule(start: int, iteration: Option<int>)
        ensures
            Self::cycle_end_rule(start, iteration) matches Some(end) ==> start <= end,
    ;

    /// An interval ends no earlier than it starts.
    proof fn lemma_interval_end_rule(cycle: CycleView, start: int)
        ensures
            Self::interval_end_rule(cycle, start) matches Some(end) ==> start <= end,
    ;

    /// Where the cycles of this schedule come from.
    fn cycle_finder(&self) -> (r: CycleFinder)
        ensures
            anchor_of(r) == self.anchor(),
    ;

    /// The first and the last day of the cycle of `date`.
    fn perpetual_cycle(&self, date: HebrewDate) -> (r: Option<(HebrewDate, HebrewDate)>)
        ensures
            bounds_of(r) == self.perpetual_cycle_rule(date@),
    ;

    /// The last day of the cycle that starts on `hebrew_date`.
    fn cycle_end_calculation(hebrew_date: HebrewDate, iteration: Option<i32>) -> (r: Option<
        HebrewDate,
    >)
        ensures
            day_of(r) == Self::cycle_end_rule(hebrew_date@, iteration_of(iteration)),
    ;

    /// The last day of the interval of `cycle` that starts on `hebrew_date`.
    fn interval_end_calculation(cycle: Cycle, hebrew_date: HebrewDate) -> (r: Option<HebrewDate>)
        ensures
            day_of(r) == Self::interval_end_rule(cycle@, hebrew_date@),
    ;

    /// Whether `interval` takes no unit.
    fn is_skip_interval(&self, interval: &Interval) -> (b: bool)
        ensures
            b == self.skip_rule(interval@),
    ;

    /// The unit of `limud_date` in `interval`.
    fn unit_for_interval(&self, interval: &Interval, limud_date: &HebrewDate) -> (r: Option<T>)
        ensures
            r == self.unit_rule(interval@, limud_date@),
    ;
}

/// The cycle of `date` under `policy`.
pub open spec fn cycle_of<T, P: SchedulePolicy<T>>(policy: P, date: int) -> Result<
    CycleView,
    ResolveError,
> {
    match policy.anchor() {
        Some(anchor) => cycle_from_anchor::<T, P>(anchor, date),
        None => perpetual_cycle::<T, P>(policy, date),
    }
}

/// The transition that leaves `interval` behind.
pub open spec fn transition_after<T, P: SchedulePolicy<T>>(
    policy: P,
    interval: IntervalView,
) -> Transition {
    if policy.skip_rule(interval) {
        Transition::Skip
    } else {
        Transition::Continue
    }
}

/// The first interval, from `interval` onwards, that holds `date`.
pub open spec fn seek_interval<T, P: SchedulePolicy<T>>(
    policy: P,
    interval: IntervalView,
    date: int,
) -> Result<IntervalView, ResolveError>
    decreases days_left(interval.end, interval.cycle.end),
{
    if interval.contains(date) {
        Ok(interval)
    } else {
        match next_interval::<T, P>(interval, transition_after(policy, interval)) {
            Err(e) => Err(e),
            Ok(next) => {
                proof {
                    P::lemma_interval_end_rule(interval.cycle, interval.end + 1);
                }
                seek_interval(policy, next, date)
            },
        }
    }
}

/// The interval of `date` under `policy`: the cycle of the date is found,
/// then its intervals are walked from the first one until one holds the
/// date. A date after the end of its cycle has no interval.
pub open spec fn interval_of<T, P: SchedulePolicy<T>>(policy: P, date: int) -> Result<
    IntervalView,
    ResolveError,
> {
    match cycle_of(policy, date) {
        Err(e) => Err(e),
        Ok(cycle) => if cycle.end < date {
            Err(ResolveError::NoUnitScheduled)
        } else {
            match first_interval::<T, P>(cycle) {
                Err(e) => Err(e),
                Ok(first) => seek_interval(policy, first, date),
            }
        },
    }
}

/// The unit of `date` under `policy`: that of the interval of the date,
/// unless the interval takes none.
pub open spec fn unit_of<T, P: SchedulePolicy<T>>(policy: P, date: int) -> Result<T, ResolveError> {
    match interval_of(policy, date) {
        Err(e) => Err(e),
        Ok(interval) => if policy.skip_rule(interval) {
            Err(ResolveError::NoUnitScheduled)
        } else {
            match policy.unit_rule(interval, date) {
                Some(unit) => Ok(unit),
                None => Err(ResolveError::NoUnitScheduled),
            }
        },
    }
}

/// What a schedule gives for a date: the unit, or nothing.
pub open spec fn limud_of<T, P: SchedulePolicy<T>>(policy: P, date: int) -> Option<T> {
    match unit_of(policy, date) {
        Ok(unit) => Some(unit),
        Err(_) => None,
    }
}

/// The engine: what every schedule policy can do.
pub trait LimudCalculator<T>: SchedulePolicy<T> {
    /// The unit of `limud_date`, or nothing where the date has none.
    fn limud(&self, limud_date: HebrewDate) -> (r: Option<T>)
        ensures
            r == limud_of(*self, limud_date@),
    {
        match self.resolve(limud_date) {
            Ok(unit) => Some(unit),
            Err(_) => None,
        }
    }

    /// The unit of `limud_date`, or the reason why the date has none.
    fn resolve(&self, limud_date: HebrewDate) -> (r: Result<T, ResolveError>)
        ensures
            r == unit_of(*self, limud_date@),
    {
        let interval = match self.locate(limud_date) {
            Ok(interval) => interval,
            Err(e) => {
                return Err(e);
            },
        };
        if self.is_skip_interval(&interval) {
            return Err(ResolveError::NoUnitScheduled);
        }
        match self.unit_for_interval(&interval, &limud_date) {
            Some(unit) => Ok(unit),
            None => Err(ResolveError::NoUnitScheduled),
        }
    }

    /// The interval that holds `limud_date`, or the reason why none does.
    fn locate(&self, limud_date: HebrewDate) -> (r: Result<Interval, ResolveError>)
        ensures
            interval_outcome(r) == interval_of(*self, limud_date@),
    {
        let cycle = match self.find_cycle(limud_date) {
            Ok(cycle) => cycle,
            Err(e) => {
                return Err(e);
            },
        };
        if cycle.end_date.day_number() < limud_date.day_number() {
            return Err(ResolveError::NoUnitScheduled);
        }
        let mut interval = match Interval::first_for_cycle::<T, Self>(cycle) {
            Ok(interval) => interval,
            Err(e) => {
                return Err(e);
            },
        };
        let ghost first = interval@;
        proof {
            Self::lemma_interval_end_rule(cycle@, cycle@.start);
        }
        while !interval.contains(limud_date)
            invariant
                interval.cycle == cycle,
                1 <= interval.iteration <= interval.start_date@ - cycle.start_date@ + 1,
                interval.start_date@ <= interval.end_date@,
                seek_interval(*self, interval@, limud_date@) == seek_interval(
                    *self,
                    first,
                    limud_date@,
                ),
                interval_of(*self, limud_date@) == seek_interval(*self, first, limud_date@),
            decreases days_left(interval.end_date@, cycle.end_date@),
        {
            let ghost before = interval@;
            proof {
                use_type_invariant(&interval.start_date);
                use_type_invariant(&cycle.start_date);
                Self::lemma_interval_end_rule(before.cycle, before.end + 1);
            }
            let advanced = if self.is_skip_interval(&interval) {
                interval.skip::<T, Self>()
            } else {
                interval.next::<T, Self>()
            };
            match advanced {
                Ok(next) => {
                    interval = next;
                },
                Err(e) => {
                    return Err(e);
                },
            }
        }
        Ok(interval)
    }

    /// The cycle of `date`, or the reason why it has none.
    fn find_cycle(&self, date: HebrewDate) -> (r: Result<Cycle, ResolveError>)
        ensures
            cycle_outcome(r) == cycle_of(*self, date@),
    {
        match self.cycle_finder() {
            CycleFinder::Initial(initial_cycle_date) => Cycle::from_cycle_initiation::<T, Self>(
                initial_cycle_date,
                date,
            ),
            CycleFinder::Perpetual => Cycle::from_perpetual::<T, Self>(self, date),
        }
    }
}

} // verus!
