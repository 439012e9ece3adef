//! What holds of every distribution, stated over the moments at which the
//! items are scheduled.

use vstd::prelude::*;
use crate::clock::{day_of, second_of_day, weekday_of, weekday_of_day};
use crate::schedule_show::{
    advance, cursor_before, lemma_next_day_start, lemma_open_within_a_week,
    lemma_settle_not_earlier, next_day_start, open_on, scheduled_at, settle_within, slot,
    weekday_after, Cursor, Episode, SchedulingBoundaries, SchedulingOptions,
};

verus! {

/// If one of the next `tries` days takes items, settling ends on a day that
/// takes items.
pub proof fn lemma_settle_lands_open(
    bounds: SchedulingBoundaries,
    options: SchedulingOptions,
    c: Cursor,
    tries: nat,
    k: int,
)
    requires
        bounds.well_formed(),
        0 <= k < tries,
        options.days_of_week@[weekday_after(weekday_of(c.at), k)],
    ensures
        open_on(options, settle_within(bounds, options, c, tries).at),
    decreases tries,
{
    if open_on(options, c.at) {
    } else {
        let next = Cursor { at: next_day_start(bounds, c.at), count: 0 };
        lemma_next_day_start(bounds, c.at);
        assert(weekday_after(weekday_of(c.at), 0) == weekday_of(c.at));
        assert(weekday_after(weekday_of(next.at), k - 1) == weekday_after(weekday_of(c.at), k));
        lemma_settle_lands_open(bounds, options, next, (tries - 1) as nat, k - 1);
    }
}

/// Weekdays are respected: where some weekday takes items, every item is
/// scheduled on a weekday that takes items.
pub proof fn law_weekday_respected(
    items: Seq<Episode>,
    bounds: SchedulingBoundaries,
    options: SchedulingOptions,
    i: nat,
)
    requires
        bounds.well_formed(),
        options.has_open_day(),
    ensures
        open_on(options, scheduled_at(items, bounds, options, i)),
{
    let c = cursor_before(items, bounds, options, i);
    lemma_open_within_a_week(options, weekday_of(c.at));
    let k = choose|k: int|
        0 <= k < 7 && options.days_of_week@[#[trigger] weekday_after(weekday_of(c.at), k)];
    lemma_settle_lands_open(bounds, options, c, 7, k);
}

/// Placing an item moves the cursor on by at least the item's running time.
pub proof fn lemma_advance_not_earlier(
    bounds: SchedulingBoundaries,
    options: SchedulingOptions,
    c: Cursor,
    runtime: nat,
)
    requires
        bounds.well_formed(),
    ensures
        advance(bounds, options, c, runtime).at >= c.at + 60 * runtime,
        advance(bounds, options, c, runtime).count == c.count + 1 || day_of(
            advance(bounds, options, c, runtime).at,
        ) > day_of(c.at),
{
    lemma_next_day_start(bounds, c.at + 60 * runtime);
}

/// Running times are respected: an item is scheduled no earlier than the
/// item before it ends.
pub proof fn law_runtime_advance(
    items: Seq<Episode>,
    bounds: SchedulingBoundaries,
    options: SchedulingOptions,
    i: nat,
)
    requires
        bounds.well_formed(),
    ensures
        scheduled_at(items, bounds, options, i + 1) >= scheduled_at(items, bounds, options, i) + 60
            * (items[i as int].episode_run_time as nat),
{
    let placed = slot(items, bounds, options, i);
    let runtime = items[i as int].episode_run_time as nat;
    lemma_advance_not_earlier(bounds, options, placed, runtime);
    assert(cursor_before(items, bounds, options, i + 1) == advance(
        bounds,
        options,
        placed,
        runtime,
    ));
    lemma_settle_not_earlier(bounds, options, cursor_before(items, bounds, options, i + 1), 7);
}

/// Items are scheduled in their order: a later item is never scheduled
/// before an earlier one.
pub proof fn law_scheduled_in_order(
    items: Seq<Episode>,
    bounds: SchedulingBoundaries,
    options: SchedulingOptions,
    i: nat,
    j: nat,
)
    requires
        bounds.well_formed(),
        i <= j,
    ensures
        scheduled_at(items, bounds, options, i) <= scheduled_at(items, bounds, options, j),
    decreases j - i,
{
    if i < j {
        law_scheduled_in_order(items, bounds, options, i, (j - 1) as nat);
        law_runtime_advance(items, bounds, options, (j - 1) as nat);
    }
}

/// Under a quota, the count at which an item is placed stays below the
/// quota.
pub proof fn lemma_count_below_quota(
    items: Seq<Episode>,
    bounds: SchedulingBoundaries,
    options: SchedulingOptions,
    i: nat,
)
    requires
        bounds.well_formed(),
        options.eps_per_day > 0,
    ensures
        cursor_before(items, bounds, options, i).count < options.eps_per_day,
        slot(items, bounds, options, i).count < options.eps_per_day,
    decreases i,
{
    if i > 0 {
        lemma_count_below_quota(items, bounds, options, (i - 1) as nat);
    }
    lemma_settle_keeps_or_resets(bounds, options, cursor_before(items, bounds, options, i), 7);
}

/// Settling leaves the count as it is or resets it.
pub proof fn lemma_settle_keeps_or_resets(
    bounds: SchedulingBoundaries,
    options: SchedulingOptions,
    c: Cursor,
    tries: nat,
)
    ensures
        settle_within(bounds, options, c, tries).count == c.count || settle_within(
            bounds,
            options,
            c,
            tries,
        ).count == 0,
    decreases tries,
{
    if tries == 0 || open_on(options, c.at) {
    } else {
        let next = Cursor { at: next_day_start(bounds, c.at), count: 0 };
        lemma_settle_keeps_or_resets(bounds, options, next, (tries - 1) as nat);
    }
}

/// From one item to the next the count grows by one, or the day changes.
pub proof fn lemma_count_or_day_grows(
    items: Seq<Episode>,
    bounds: SchedulingBoundaries,
    options: SchedulingOptions,
    i: nat,
)
    requires
        bounds.well_formed(),
    ensures
        slot(items, bounds, options, i + 1).count == slot(items, bounds, options, i).count + 1
            || day_of(scheduled_at(items, bounds, options, i + 1)) > day_of(
            scheduled_at(items, bounds, options, i),
        ),
{
    let placed = slot(items, bounds, options, i);
    let runtime = items[i as int].episode_run_time as nat;
    let before = cursor_before(items, bounds, options, i + 1);
    assert(before == advance(bounds, options, placed, runtime));
    lemma_advance_not_earlier(bounds, options, placed, runtime);
    lemma_settle_not_earlier(bounds, options, before, 7);
}

/// Over `m` items the count grows by `m`, or the day changes.
pub proof fn lemma_count_or_day_grows_over(
    items: Seq<Episode>,
    bounds: SchedulingBoundaries,
    options: SchedulingOptions,
    i: nat,
    m: nat,
)
    requires
        bounds.well_formed(),
    ensures
        slot(items, bounds, options, i + m).count == slot(items, bounds, options, i).count + m
            || day_of(scheduled_at(items, bounds, options, i + m)) > day_of(
            scheduled_at(items, bounds, options, i),
        ),
    decreases m,
{
    if m > 0 {
        let p = (i + m - 1) as nat;
        assert(p == i + (m - 1) as nat);
        assert(p + 1 == i + m);
        lemma_count_or_day_grows_over(items, bounds, options, i, (m - 1) as nat);
        lemma_count_or_day_grows(items, bounds, options, p);
        law_scheduled_in_order(items, bounds, options, i, p);
        law_scheduled_in_order(items, bounds, options, p, p + 1);
    } else {
        assert(i + m == i);
    }
}

/// The daily quota holds: with a quota of `k > 0` items per day, the item
/// that comes `k` places after another is scheduled on a later day, so no
/// day takes more than `k` items.
pub proof fn law_daily_quota(
    items: Seq<Episode>,
    bounds: SchedulingBoundaries,
    options: SchedulingOptions,
    i: nat,
)
    requires
        bounds.well_formed(),
        options.eps_per_day > 0,
    ensures
        day_of(scheduled_at(items, bounds, options, i + options.eps_per_day as nat)) > day_of(
            scheduled_at(items, bounds, options, i),
        ),
{
    let k = options.eps_per_day as nat;
    lemma_count_or_day_grows_over(items, bounds, options, i, k);
    lemma_count_below_quota(items, bounds, options, i + k);
}

/// Settling passes over closed days only, and where it moves the cursor it
/// leaves it at the start time of a day.
pub proof fn lemma_settle_passes_closed_days(
    bounds: SchedulingBoundaries,
    options: SchedulingOptions,
    c: Cursor,
    tries: nat,
)
    requires
        bounds.well_formed(),
    ensures
        settle_within(bounds, options, c, tries) == c || second_of_day(
            settle_within(bounds, options, c, tries).at,
        ) == bounds.start_time,
        forall|d: int|
            day_of(c.at) <= d < day_of(settle_within(bounds, options, c, tries).at)
                ==> !options.days_of_week@[#[trigger] weekday_of_day(d)],
    decreases tries,
{
    if tries == 0 || open_on(options, c.at) {
    } else {
        let next = Cursor { at: next_day_start(bounds, c.at), count: 0 };
        lemma_settle_passes_closed_days(bounds, options, next, (tries - 1) as nat);
        lemma_settle_not_earlier(bounds, options, next, (tries - 1) as nat);
        lemma_next_day_start(bounds, c.at);
    }
}

/// The quota ends the day: with a quota of `k > 0` items per day, the item
/// after the `k`-th of a count is scheduled at the start time of the first
/// day that takes items after the day on which the `k`-th item ends.
pub proof fn law_quota_rolls_over(
    items: Seq<Episode>,
    bounds: SchedulingBoundaries,
    options: SchedulingOptions,
    i: nat,
)
    requires
        bounds.well_formed(),
        options.eps_per_day > 0,
        slot(items, bounds, options, i).count + 1 == options.eps_per_day,
    ensures
        second_of_day(scheduled_at(items, bounds, options, i + 1)) == bounds.start_time,
        day_of(scheduled_at(items, bounds, options, i + 1)) > day_of(
            scheduled_at(items, bounds, options, i) + 60 * (items[i as int].episode_run_time
                as nat),
        ),
        forall|d: int|
            day_of(
                scheduled_at(items, bounds, options, i) + 60 * (items[i as int].episode_run_time
                    as nat),
            ) < d < day_of(scheduled_at(items, bounds, options, i + 1))
                ==> !options.days_of_week@[#[trigger] weekday_of_day(d)],
{
    let placed = slot(items, bounds, options, i);
    let runtime = items[i as int].episode_run_time as nat;
    let before = cursor_before(items, bounds, options, i + 1);
    assert(before == advance(bounds, options, placed, runtime));
    assert(before.at == next_day_start(bounds, placed.at + 60 * runtime));
    lemma_next_day_start(bounds, placed.at + 60 * runtime);
    lemma_settle_passes_closed_days(bounds, options, before, 7);
    lemma_settle_not_earlier(bounds, options, before, 7);
}

} // verus!
