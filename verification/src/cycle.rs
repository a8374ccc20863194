//! Cycles: the full repetition periods of a schedule.

use crate::date::{day_in_range, days_left, HebrewDate};
use crate::limud_calculator::{ResolveError, SchedulePolicy};
use vstd::prelude::*;

verus! {

/// One full repetition period of a schedule, from its first to its last
/// day. A cycle counted from a fixed first cycle carries its number, from 1;
/// a cycle that is derived from the calendar alone carries none.
#[derive(Clone, Copy, Debug)]
pub struct Cycle {
    pub start_date: HebrewDate,
    pub end_date: HebrewDate,
    pub iteration: Option<i32>,
}

/// A cycle as mathematics: the day numbers of its first and last day, and
/// its number where it has one.
pub struct CycleView {
    pub start: int,
    pub end: int,
    pub iteration: Option<int>,
}

impl View for Cycle {
    type V = CycleView;

    open spec fn view(&self) -> CycleView {
        CycleView {
            start: self.start_date@,
            end: self.end_date@,
            iteration: match self.iteration {
                Some(n) => Some(n as int),
                None => None,
            },
        }
    }
}

impl CycleView {
    /// Whether this cycle ends no earlier than it starts and, where it has
    /// a number, has one from 1.
    pub open spec fn well_formed(self) -> bool {
        self.start <= self.end && (self.iteration matches Some(n) ==> n >= 1)
    }

    /// Whether the day numbered `date` lies in this cycle.
    pub open spec fn contains(self, date: int) -> bool {
        self.start <= date <= self.end
    }
}

/// The view of a cycle that was looked for, or the reason why none was found.
pub open spec fn cycle_outcome(r: Result<Cycle, ResolveError>) -> Result<CycleView, ResolveError> {
    match r {
        Ok(cycle) => Ok(cycle@),
        Err(e) => Err(e),
    }
}

/// The cycle numbered `iteration` that starts on `start`, under the
/// policy's rule for the end of a cycle.
pub open spec fn cycle_from<T, P: SchedulePolicy<T>>(start: int, iteration: int) -> Result<
    CycleView,
    ResolveError,
> {
    match P::cycle_end_rule(start, Some(iteration)) {
        Some(end) => Ok(CycleView { start, end, iteration: Some(iteration) }),
        None => Err(ResolveError::DateAlgebraOverflow),
    }
}

/// The cycle that follows `cycle`: it starts on the day after `cycle` ends
/// and carries the next number. A cycle without a number has no successor.
pub open spec fn next_cycle<T, P: SchedulePolicy<T>>(cycle: CycleView) -> Result<
    CycleView,
    ResolveError,
> {
    match cycle.iteration {
        None => Err(ResolveError::InternalInconsistency),
        Some(n) => if day_in_range(cycle.end + 1) {
            cycle_from::<T, P>(cycle.end + 1, n + 1)
        } else {
            Err(ResolveError::DateAlgebraOverflow)
        },
    }
}

/// The first cycle, from `cycle` onwards, that does not end before `date`.
pub open spec fn seek_cycle<T, P: SchedulePolicy<T>>(cycle: CycleView, date: int) -> Result<
    CycleView,
    ResolveError,
>
    decreases days_left(cycle.end, date),
{
    if date <= cycle.end {
        Ok(cycle)
    } else {
        match next_cycle::<T, P>(cycle) {
            Err(e) => Err(e),
            Ok(next) => {
                proof {
                    P::lemma_cycle_end_rule(cycle.end + 1, next.iteration);
                }
                seek_cycle::<T, P>(next, date)
            },
        }
    }
}

/// The cycle that holds `date`, counted from a first cycle that starts on
/// `anchor`: no cycle holds a date before the anchor.
pub open spec fn cycle_from_anchor<T, P: SchedulePolicy<T>>(anchor: int, date: int) -> Result<
    CycleView,
    ResolveError,
> {
    if date < anchor {
        Err(ResolveError::BeforeCycleStart)
    } else {
        match cycle_from::<T, P>(anchor, 1) {
            Err(e) => Err(e),
            Ok(first) => seek_cycle::<T, P>(first, date),
        }
    }
}

/// The cycle that the policy derives from `date` alone.
pub open spec fn perpetual_cycle<T, P: SchedulePolicy<T>>(policy: P, date: int) -> Result<
    CycleView,
    ResolveError,
> {
    match policy.perpetual_cycle_rule(date) {
        Some((start, end)) => Ok(CycleView { start, end, iteration: None }),
        None => Err(ResolveError::DateAlgebraOverflow),
    }
}

impl Cycle {
    /// The cycle that the policy derives from `date` alone.
    pub fn from_perpetual<T, P: SchedulePolicy<T>>(policy: &P, date: HebrewDate) -> (r: Result<
        Cycle,
        ResolveError,
    >)
        ensures
            cycle_outcome(r) == perpetual_cycle::<T, P>(*policy, date@),
    {
        match policy.perpetual_cycle(date) {
            Some((start_date, end_date)) => Ok(Cycle { start_date, end_date, iteration: None }),
            None => Err(ResolveError::DateAlgebraOverflow),
        }
    }

    /// The cycle that holds `date`, counted from a first cycle that starts
    /// on `initial_cycle_date`: the cycles are walked in order until one
    /// ends on or after `date`.
    pub fn from_cycle_initiation<T, P: SchedulePolicy<T>>(
        initial_cycle_date: HebrewDate,
        date: HebrewDate,
    ) -> (r: Result<Cycle, ResolveError>)
        ensures
            cycle_outcome(r) == cycle_from_anchor::<T, P>(initial_cycle_date@, date@),
    {
        let anchor = initial_cycle_date.day_number();
        let target = date.day_number();
        if anchor > target {
            return Err(ResolveError::BeforeCycleStart);
        }
        let end_date = match P::cycle_end_calculation(initial_cycle_date, Some(1)) {
            Some(end_date) => end_date,
            None => {
                return Err(ResolveError::DateAlgebraOverflow);
            },
        };
        let mut cycle = Cycle { start_date: initial_cycle_date, end_date, iteration: Some(1) };
        let ghost first = cycle@;
        proof {
            P::lemma_cycle_end_rule(anchor as int, Some(1int));
        }
        while target > cycle.end_date.day_number()
            invariant
                target == date@,
                anchor == initial_cycle_date@,
                day_in_range(anchor as int),
                cycle.iteration.is_some(),
                1 <= cycle.iteration.unwrap() <= cycle.start_date@ - anchor + 1,
                cycle.start_date@ <= cycle.end_date@,
                seek_cycle::<T, P>(cycle@, date@) == seek_cycle::<T, P>(first, date@),
                cycle_from_anchor::<T, P>(initial_cycle_date@, date@) == seek_cycle::<T, P>(
                    first,
                    date@,
                ),
            decreases days_left(cycle.end_date@, date@),
        {
            let ghost before = cycle@;
            proof {
                use_type_invariant(&cycle.start_date);
            }
            match cycle.next::<T, P>() {
                Ok(next) => {
                    proof {
                        P::lemma_cycle_end_rule(before.end + 1, next@.iteration);
                    }
                    cycle = next;
                },
                Err(e) => {
                    return Err(e);
                },
            }
        }
        Ok(cycle)
    }

    /// The cycle that follows this one.
    pub fn next<T, P: SchedulePolicy<T>>(&self) -> (r: Result<Cycle, ResolveError>)
        requires
            self.iteration matches Some(n) ==> n < i32::MAX,
        ensures
            cycle_outcome(r) == next_cycle::<T, P>(self@),
    {
        match self.iteration {
            Some(iteration) => {
                let new_iteration = iteration + 1;
                let new_start_date = match self.end_date.add_days(1) {
                    Some(date) => date,
                    None => {
                        return Err(ResolveError::DateAlgebraOverflow);
                    },
                };
                match P::cycle_end_calculation(new_start_date, Some(new_iteration)) {
                    Some(new_end_date) => Ok(
                        Cycle {
                            start_date: new_start_date,
                            end_date: new_end_date,
                            iteration: Some(new_iteration),
                        },
                    ),
                    None => Err(ResolveError::DateAlgebraOverflow),
                }
            },
            None => Err(ResolveError::InternalInconsistency),
        }
    }
}

} // verus!
