//! What holds of the engine under every policy.

use crate::cycle::{cycle_from, next_cycle, seek_cycle, CycleView};
use crate::date::{days_left, saturday_from, week_end, MAX_DAY_NUMBER, MIN_DAY_NUMBER};
use crate::interval::{first_interval, next_interval, IntervalView};
use crate::limud_calculator::{
    cycle_of,
    interval_of,
    limud_of,
    seek_interval,
    transition_after,
    unit_of,
    ResolveError,
    SchedulePolicy,
};
use vstd::prelude::*;

verus! {

/// A schedule whose cycles are counted from an anchor has no unit for a
/// date before the anchor.
pub proof fn lemma_nothing_before_anchor<T, P: SchedulePolicy<T>>(policy: P, date: int)
    requires
        policy.anchor() matches Some(anchor) && date < anchor,
    ensures
        unit_of(policy, date) == Err::<T, ResolveError>(ResolveError::BeforeCycleStart),
        limud_of(policy, date).is_none(),
{
}

/// Whether `cycle` is one of the counted cycles of the policy: it has a
/// number, from 1, and it ends where the rule of the policy says.
pub open spec fn is_counted_cycle<T, P: SchedulePolicy<T>>(cycle: CycleView) -> bool {
    cycle.iteration matches Some(n) && n >= 1 && P::cycle_end_rule(cycle.start, Some(n)) == Some(
        cycle.end,
    )
}

/// The cycle that a search finds is a counted cycle that holds the date,
/// if the search starts from a counted cycle that does not start after
/// the date.
pub proof fn lemma_seek_cycle_finds_counted<T, P: SchedulePolicy<T>>(cycle: CycleView, date: int)
    requires
        is_counted_cycle::<T, P>(cycle),
        cycle.start <= date,
    ensures
        seek_cycle::<T, P>(cycle, date) matches Ok(found) ==> is_counted_cycle::<T, P>(found)
            && found.contains(date) && found.iteration.unwrap() - cycle.iteration.unwrap()
            <= found.start - cycle.start,
        seek_cycle::<T, P>(cycle, date) matches Err(e) ==> e
            == ResolveError::DateAlgebraOverflow,
    decreases days_left(cycle.end, date),
{
    if date > cycle.end {
        if let Ok(next) = next_cycle::<T, P>(cycle) {
            P::lemma_cycle_end_rule(cycle.start, cycle.iteration);
            P::lemma_cycle_end_rule(cycle.end + 1, next.iteration);
            lemma_seek_cycle_finds_counted::<T, P>(next, date);
        }
    }
}

/// The cycle of a date holds the date under a schedule whose cycles are
/// counted, and it is a counted cycle; the only failures are a date before
/// the anchor and a date out of range.
pub proof fn lemma_counted_cycle_holds_date<T, P: SchedulePolicy<T>>(policy: P, date: int)
    requires
        policy.anchor().is_some(),
    ensures
        cycle_of(policy, date) matches Ok(cycle) ==> is_counted_cycle::<T, P>(cycle)
            && cycle.contains(date) && cycle.well_formed() && policy.anchor().unwrap()
            <= cycle.start
            && cycle.iteration.unwrap() <= cycle.start - policy.anchor().unwrap() + 1,
        cycle_of(policy, date) matches Err(e) ==> (e == ResolveError::BeforeCycleStart
            && date < policy.anchor().unwrap()) || (e == ResolveError::DateAlgebraOverflow
            && date >= policy.anchor().unwrap()),
{
    let anchor = policy.anchor().unwrap();
    if date >= anchor {
        if let Ok(first) = cycle_from::<T, P>(anchor, 1) {
            lemma_seek_cycle_finds_counted::<T, P>(first, date);
        }
    }
}

/// The cycle of the day after a cycle ends is the successor of that cycle.
pub proof fn lemma_day_after_cycle<T, P: SchedulePolicy<T>>(
    policy: P,
    date: int,
    cycle: CycleView,
    next: CycleView,
)
    requires
        policy.anchor().is_some(),
        cycle_of(policy, date) == Ok::<CycleView, ResolveError>(cycle),
        next_cycle::<T, P>(cycle) == Ok::<CycleView, ResolveError>(next),
    ensures
        cycle_of(policy, cycle.end + 1) == Ok::<CycleView, ResolveError>(next),
{
    let anchor = policy.anchor().unwrap();
    lemma_counted_cycle_holds_date(policy, date);
    let first = cycle_from::<T, P>(anchor, 1).unwrap();
    lemma_next_cycle_follows::<T, P>(first, date, cycle, next);
}

/// After one counted cycle comes the next: where a search from `first`
/// finds `found` for some date, the same search finds the successor of
/// `found` for the day after `found` ends.
pub proof fn lemma_next_cycle_follows<T, P: SchedulePolicy<T>>(
    first: CycleView,
    date: int,
    found: CycleView,
    next: CycleView,
)
    requires
        seek_cycle::<T, P>(first, date) == Ok::<CycleView, ResolveError>(found),
        next_cycle::<T, P>(found) == Ok::<CycleView, ResolveError>(next),
    ensures
        seek_cycle::<T, P>(first, found.end + 1) == Ok::<CycleView, ResolveError>(next),
    decreases days_left(first.end, date),
{
    P::lemma_cycle_end_rule(found.end + 1, next.iteration);
    if date <= first.end {
        assert(found == first);
        assert(seek_cycle::<T, P>(next, found.end + 1) == Ok::<CycleView, ResolveError>(next));
    } else {
        let second = next_cycle::<T, P>(first).unwrap();
        P::lemma_cycle_end_rule(first.end + 1, second.iteration);
        lemma_next_cycle_follows::<T, P>(second, date, found, next);
        lemma_seek_cycle_is_later::<T, P>(second, date);
    }
}

/// A search for a cycle never goes back: the cycle that it finds ends no
/// earlier than the cycle that it starts from.
pub proof fn lemma_seek_cycle_is_later<T, P: SchedulePolicy<T>>(cycle: CycleView, date: int)
    ensures
        seek_cycle::<T, P>(cycle, date) matches Ok(found) ==> cycle.end <= found.end,
    decreases days_left(cycle.end, date),
{
    if date > cycle.end {
        if let Ok(next) = next_cycle::<T, P>(cycle) {
            P::lemma_cycle_end_rule(cycle.end + 1, next.iteration);
            lemma_seek_cycle_is_later::<T, P>(next, date);
        }
    }
}

/// The number of intervals that take a unit among those that a search
/// passes, from `interval` up to the one that holds `date`, that one not
/// counted.
pub open spec fn takers_before<T, P: SchedulePolicy<T>>(
    policy: P,
    interval: IntervalView,
    date: int,
) -> int
    decreases days_left(interval.end, interval.cycle.end),
{
    if interval.contains(date) {
        0
    } else {
        match next_interval::<T, P>(interval, transition_after(policy, interval)) {
            Err(_) => 0,
            Ok(next) => {
                proof {
                    P::lemma_interval_end_rule(interval.cycle, interval.end + 1);
                }
                takers_before(policy, next, date) + (if policy.skip_rule(interval) {
                    0int
                } else {
                    1int
                })
            },
        }
    }
}

/// The interval that a search finds holds the date and lies in the cycle
/// of the interval that the search starts from, after that one unless it
/// is that one. Its number is the number of that interval and one more for
/// each interval passed that takes a unit: an interval that takes none
/// does not use up a number.
pub proof fn lemma_seek_interval<T, P: SchedulePolicy<T>>(
    policy: P,
    interval: IntervalView,
    date: int,
)
    ensures
        seek_interval(policy, interval, date) matches Ok(found) ==> found.contains(date)
            && found.cycle == interval.cycle && (found == interval || interval.end < found.start)
            && found.iteration == interval.iteration + takers_before(policy, interval, date)
            && takers_before(policy, interval, date) >= 0,
        seek_interval(policy, interval, date) matches Err(e) ==> e
            == ResolveError::DateAlgebraOverflow || e == ResolveError::InternalInconsistency,
    decreases days_left(interval.end, interval.cycle.end),
{
    if !interval.contains(date) {
        if let Ok(next) = next_interval::<T, P>(interval, transition_after(policy, interval)) {
            P::lemma_interval_end_rule(interval.cycle, interval.end + 1);
            lemma_seek_interval(policy, next, date);
        }
    }
}

/// A search for the interval of a date does not run out of intervals where
/// it starts no later than the date and the cycle ends no earlier: it
/// fails only where a day that it needs is out of range.
pub proof fn lemma_seek_interval_reaches<T, P: SchedulePolicy<T>>(
    policy: P,
    interval: IntervalView,
    date: int,
)
    requires
        interval.start <= date <= interval.cycle.end,
    ensures
        seek_interval(policy, interval, date) matches Err(e) ==> e
            == ResolveError::DateAlgebraOverflow,
    decreases days_left(interval.end, interval.cycle.end),
{
    if !interval.contains(date) {
        if let Ok(next) = next_interval::<T, P>(interval, transition_after(policy, interval)) {
            P::lemma_interval_end_rule(interval.cycle, interval.end + 1);
            lemma_seek_interval_reaches(policy, next, date);
        }
    }
}

/// A date in its cycle has an interval, unless a day that the search needs
/// is out of range: the intervals of a cycle never run out before a date
/// of the cycle is reached.
pub proof fn lemma_date_in_cycle_is_reached<T, P: SchedulePolicy<T>>(
    policy: P,
    date: int,
    cycle: CycleView,
)
    requires
        cycle_of(policy, date) == Ok::<CycleView, ResolveError>(cycle),
        cycle.contains(date),
    ensures
        interval_of(policy, date) matches Err(e) ==> e == ResolveError::DateAlgebraOverflow,
        unit_of(policy, date) matches Err(e) ==> e == ResolveError::DateAlgebraOverflow || e
            == ResolveError::NoUnitScheduled,
{
    if let Ok(first) = first_interval::<T, P>(cycle) {
        lemma_seek_interval_reaches(policy, first, date);
    }
}

/// The interval of a date holds the date, and it is an interval of the
/// cycle of the date, which holds the date as well: no unit is ever taken
/// from another cycle. Its number is 1 and one more for each interval
/// before it in the cycle that takes a unit.
pub proof fn lemma_interval_holds_date<T, P: SchedulePolicy<T>>(policy: P, date: int)
    ensures
        interval_of(policy, date) matches Ok(interval) ==> interval.contains(date) && cycle_of(
            policy,
            date,
        ) == Ok::<CycleView, ResolveError>(interval.cycle) && interval.cycle.start
            <= interval.start && interval.cycle.contains(date) && first_interval::<T, P>(
            interval.cycle,
        ).is_ok() && interval.iteration == 1 + takers_before(
            policy,
            first_interval::<T, P>(interval.cycle).unwrap(),
            date,
        ),
        unit_of(policy, date).is_ok() ==> interval_of(policy, date).is_ok(),
{
    if let Ok(cycle) = cycle_of(policy, date) {
        if cycle.end >= date {
            if let Ok(first) = first_interval::<T, P>(cycle) {
                P::lemma_interval_end_rule(cycle, cycle.start);
                lemma_seek_interval(policy, first, date);
            }
        }
    }
}

/// A date whose interval takes no unit has no unit.
pub proof fn lemma_skip_interval_has_no_unit<T, P: SchedulePolicy<T>>(policy: P, date: int)
    requires
        interval_of(policy, date) matches Ok(interval) && policy.skip_rule(interval),
    ensures
        unit_of(policy, date) == Err::<T, ResolveError>(ResolveError::NoUnitScheduled),
        limud_of(policy, date).is_none(),
{
}

/// The interval after one that takes no unit has the number of that one;
/// the interval after one that takes a unit has the next number.
pub proof fn lemma_skip_keeps_number<T, P: SchedulePolicy<T>>(policy: P, interval: IntervalView)
    ensures
        next_interval::<T, P>(interval, transition_after(policy, interval)) matches Ok(next)
            ==> next.start == interval.end + 1 && next.iteration == (if policy.skip_rule(
            interval,
        ) {
            interval.iteration
        } else {
            interval.iteration + 1
        }),
{
}

/// Whether every interval of the policy is a single day.
pub open spec fn has_single_day_intervals<T, P: SchedulePolicy<T>>() -> bool {
    forall|cycle: CycleView, start: int| #[trigger]
        P::interval_end_rule(cycle, start) == Some(start)
}

/// Whether every interval takes a unit under the policy.
pub open spec fn never_skips<T, P: SchedulePolicy<T>>(policy: P) -> bool {
    forall|interval: IntervalView| !#[trigger] policy.skip_rule(interval)
}

/// Under a policy whose intervals are single days, a search from the
/// interval of one day finds the interval of the date; the search passes
/// as many intervals that take a unit as it passes days where every day
/// takes a unit, and no more than that otherwise.
pub proof fn lemma_seek_single_day<T, P: SchedulePolicy<T>>(
    policy: P,
    interval: IntervalView,
    date: int,
)
    requires
        has_single_day_intervals::<T, P>(),
        interval.start == interval.end,
        interval.start <= date <= interval.cycle.end,
        MIN_DAY_NUMBER <= interval.start,
        interval.cycle.end <= MAX_DAY_NUMBER,
    ensures
        seek_interval(policy, interval, date) == Ok::<IntervalView, ResolveError>(
            IntervalView {
                start: date,
                end: date,
                iteration: interval.iteration + takers_before(policy, interval, date),
                cycle: interval.cycle,
            },
        ),
        0 <= takers_before(policy, interval, date) <= date - interval.start,
        never_skips(policy) ==> takers_before(policy, interval, date) == date - interval.start,
    decreases days_left(interval.end, interval.cycle.end),
{
    if !interval.contains(date) {
        let next = next_interval::<T, P>(interval, transition_after(policy, interval)).unwrap();
        lemma_seek_single_day(policy, next, date);
    }
}

/// Under a policy whose intervals are single days, the interval of a date
/// in its cycle is that day; its number is no higher than the number of
/// the day in the cycle, and it is that number where every day takes a
/// unit.
pub proof fn lemma_single_day_interval<T, P: SchedulePolicy<T>>(
    policy: P,
    date: int,
    cycle: CycleView,
)
    requires
        has_single_day_intervals::<T, P>(),
        cycle_of(policy, date) == Ok::<CycleView, ResolveError>(cycle),
        cycle.contains(date),
        MIN_DAY_NUMBER <= cycle.start,
        cycle.end <= MAX_DAY_NUMBER,
    ensures
        interval_of(policy, date) matches Ok(interval) && interval.start == date && interval.end
            == date && interval.cycle == cycle && interval.iteration <= date - cycle.start + 1
            && interval.well_formed(),
        never_skips(policy) ==> interval_of(policy, date) == Ok::<IntervalView, ResolveError>(
            IntervalView { start: date, end: date, iteration: date - cycle.start + 1, cycle },
        ),
{
    let first = first_interval::<T, P>(cycle).unwrap();
    lemma_seek_single_day(policy, first, date);
}

/// Whether every interval of the policy ends with its week, on the
/// Saturday.
pub open spec fn has_weekly_intervals<T, P: SchedulePolicy<T>>() -> bool {
    forall|cycle: CycleView, start: int| #[trigger]
        P::interval_end_rule(cycle, start) == week_end(start)
}

/// Under a policy whose intervals are weeks that all take a unit, a search
/// from a week finds the week of the date, in a cycle that ends with a
/// week: its number is as much higher as it ends weeks later.
pub proof fn lemma_seek_weekly<T, P: SchedulePolicy<T>>(
    policy: P,
    interval: IntervalView,
    date: int,
)
    requires
        has_weekly_intervals::<T, P>(),
        never_skips(policy),
        interval.end == saturday_from(interval.start),
        interval.cycle.end == saturday_from(interval.cycle.end),
        interval.start <= date <= interval.cycle.end,
        MIN_DAY_NUMBER <= interval.start,
        interval.cycle.end <= MAX_DAY_NUMBER,
    ensures
        seek_interval(policy, interval, date) matches Ok(found) && found.contains(date)
            && found.end == saturday_from(date) && found.cycle == interval.cycle
            && interval.start <= found.start && found.iteration == interval.iteration + (
        saturday_from(date) - interval.end) / 7,
    decreases days_left(interval.end, interval.cycle.end),
{
    if !interval.contains(date) {
        let next = next_interval::<T, P>(interval, transition_after(policy, interval)).unwrap();
        lemma_seek_weekly(policy, next, date);
    }
}

/// Under a policy whose intervals are weeks that all take a unit, the
/// interval of a date in a cycle that ends with a week is the week of the
/// date, as far as it lies in the cycle; its number is 1 and one more for
/// each week that ended in the cycle before it.
pub proof fn lemma_weekly_interval<T, P: SchedulePolicy<T>>(policy: P, date: int, cycle: CycleView)
    requires
        has_weekly_intervals::<T, P>(),
        never_skips(policy),
        cycle_of(policy, date) == Ok::<CycleView, ResolveError>(cycle),
        cycle.contains(date),
        cycle.end == saturday_from(cycle.end),
        MIN_DAY_NUMBER <= cycle.start,
        cycle.end <= MAX_DAY_NUMBER,
    ensures
        interval_of(policy, date) matches Ok(interval) && interval.contains(date) && interval.end
            == saturday_from(date) && interval.cycle == cycle && interval.iteration == 1 + (
        saturday_from(date) - saturday_from(cycle.start)) / 7 && interval.well_formed(),
{
    let first = first_interval::<T, P>(cycle).unwrap();
    lemma_seek_weekly(policy, first, date);
}

} // verus!
