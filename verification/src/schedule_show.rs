//! Schedulable items, the constraints of a schedule, and the distribution of
//! items over days.

use vstd::prelude::*;
use vstd::string::StringExecFns;
use crate::clock::{
    day_number, day_of, moment, moment_at, parse_day, parse_time, parsed_day, parsed_time_of_day,
    second_of_day, time_of_day, valid_day, valid_moment, valid_time, weekday, weekday_of, MAX_DAY,
    MAX_MOMENT,
};
use crate::events::ScheduledEvent;
use crate::search_client::{MediaType, TMDBEpisodeObj, TMDBSeasonObj};
use crate::text::{number_read, parse_number};

verus! {

/// The window into which items are packed.
#[derive(Debug, Clone, Copy, PartialEq, Eq)]
pub struct SchedulingBoundaries {
    /// First day, counted from 1970-01-01.
    pub start_date: i64,
    /// Seconds after midnight at which each day begins.
    pub start_time: u32,
    /// Last day, counted from 1970-01-01.
    pub end_date: i64,
    /// Seconds after midnight after which a day takes no further item.
    pub end_time: u32,
}

impl SchedulingBoundaries {
    /// Both days lie within the years 1 to 9999 and both times within a day.
    pub open spec fn well_formed(&self) -> bool {
        &&& valid_day(self.start_date as int)
        &&& valid_time(self.start_time as int)
        &&& valid_day(self.end_date as int)
        &&& valid_time(self.end_time as int)
    }

    /// The moment at which the window opens.
    pub open spec fn opens_at(&self) -> int {
        moment_at(self.start_date as int, self.start_time as int)
    }

    /// The moment at which the window closes.
    pub open spec fn closes_at(&self) -> int {
        moment_at(self.end_date as int, self.end_time as int)
    }

    /// Whether both days and both times are in range.
    pub fn is_well_formed(&self) -> (b: bool)
        ensures
            b == self.well_formed(),
    {
        crate::clock::MIN_DAY <= self.start_date && self.start_date <= MAX_DAY
            && self.start_time < 86_400 && crate::clock::MIN_DAY <= self.end_date
            && self.end_date <= MAX_DAY && self.end_time < 86_400
    }
}

/// How items are spread over the window.
#[derive(Debug, Clone, Copy, PartialEq, Eq)]
pub struct SchedulingOptions {
    /// Which weekdays take items, Monday first.
    pub days_of_week: [bool; 7],
    /// Items per day; 0 fills each day up to the window's end time.
    pub eps_per_day: usize,
    /// Whether running past the window's end is reported.
    pub use_end_date: bool,
}

impl SchedulingOptions {
    /// At least one weekday takes items.
    pub open spec fn has_open_day(&self) -> bool {
        exists|w: int| 0 <= w < 7 && #[trigger] self.days_of_week@[w]
    }

    /// Whether at least one weekday takes items.
    pub fn any_open_day(&self) -> (b: bool)
        ensures
            b == self.has_open_day(),
    {
        let mut w: usize = 0;
        while w < 7
            invariant
                0 <= w <= 7,
                forall|v: int| 0 <= v < w ==> !#[trigger] self.days_of_week@[v],
            decreases 7 - w,
        {
            if self.days_of_week[w] {
                return true;
            }
            w += 1;
        }
        false
    }
}

/// One episode of a show.
#[derive(Debug, PartialEq, Eq)]
pub struct Episode {
    pub air_date: String,
    pub episode_number: usize,
    pub name: String,
    pub id: usize,
    pub season_number: usize,
    pub still_path: Option<String>,
    /// Running time in minutes.
    pub episode_run_time: usize,
    pub show_name: String,
    pub show_id: usize,
}

/// One movie.
#[derive(Debug, PartialEq, Eq)]
pub struct Movie {
    pub release_date: String,
    pub show_name: String,
    pub id: usize,
    pub movie_id: usize,
    /// Running time in minutes.
    pub runtime: usize,
}

/// A copy of an optional text.
pub fn clone_text(t: &Option<String>) -> (r: Option<String>)
    ensures
        r == *t,
{
    match t {
        Some(s) => Some(s.clone()),
        None => None,
    }
}

impl Clone for Episode {
    fn clone(&self) -> (r: Self)
        ensures
            r == *self,
    {
        Episode {
            air_date: self.air_date.clone(),
            episode_number: self.episode_number,
            name: self.name.clone(),
            id: self.id,
            season_number: self.season_number,
            still_path: clone_text(&self.still_path),
            episode_run_time: self.episode_run_time,
            show_name: self.show_name.clone(),
            show_id: self.show_id,
        }
    }
}

impl Clone for Movie {
    fn clone(&self) -> (r: Self)
        ensures
            r == *self,
    {
        Movie {
            release_date: self.release_date.clone(),
            show_name: self.show_name.clone(),
            id: self.id,
            movie_id: self.movie_id,
            runtime: self.runtime,
        }
    }
}

/// Where the distribution stands between two items: the next free moment and
/// the number of items placed since the day's count was last reset.
pub struct Cursor {
    pub at: int,
    pub count: nat,
}

/// The weekday `m` days after weekday `w`.
pub open spec fn weekday_after(w: int, m: int) -> int {
    (w + m) % 7
}

/// Whether the weekday of moment `t` takes items.
pub open spec fn open_on(options: SchedulingOptions, t: int) -> bool {
    options.days_of_week@[weekday_of(t)]
}

/// The start time on the calendar day after that of moment `t`.
pub open spec fn next_day_start(bounds: SchedulingBoundaries, t: int) -> int {
    moment_at(day_of(t) + 1, bounds.start_time as int)
}

/// The cursor after at most `tries` moves to the next day's start, stopping
/// at the first day that takes items. Each move resets the count.
pub open spec fn settle_within(
    bounds: SchedulingBoundaries,
    options: SchedulingOptions,
    c: Cursor,
    tries: nat,
) -> Cursor
    decreases tries,
{
    if tries == 0 || open_on(options, c.at) {
        c
    } else {
        settle_within(
            bounds,
            options,
            Cursor { at: next_day_start(bounds, c.at), count: 0 },
            (tries - 1) as nat,
        )
    }
}

/// The cursor moved past the days that take no items: at most seven moves.
pub open spec fn settle(bounds: SchedulingBoundaries, options: SchedulingOptions, c: Cursor)
    -> Cursor {
    settle_within(bounds, options, c, 7)
}

/// Whether the day ends once `count` items are placed and the cursor stands
/// at `at`: the quota is met, or the time of day is past the end time.
pub open spec fn rolls_over(
    bounds: SchedulingBoundaries,
    options: SchedulingOptions,
    at: int,
    count: nat,
) -> bool {
    (options.eps_per_day != 0 && count == options.eps_per_day) || second_of_day(at)
        > bounds.end_time
}

/// The cursor after an item of `runtime` minutes is placed at `c`.
pub open spec fn advance(
    bounds: SchedulingBoundaries,
    options: SchedulingOptions,
    c: Cursor,
    runtime: nat,
) -> Cursor {
    let at = c.at + 60 * runtime;
    let count = c.count + 1;
    if rolls_over(bounds, options, at, count) {
        Cursor { at: next_day_start(bounds, at), count: 0 }
    } else {
        Cursor { at, count }
    }
}

/// The cursor before item `i` is looked at.
pub open spec fn cursor_before(
    items: Seq<Episode>,
    bounds: SchedulingBoundaries,
    options: SchedulingOptions,
    i: nat,
) -> Cursor
    decreases i, 0nat,
{
    if i == 0 {
        Cursor { at: bounds.opens_at(), count: 0 }
    } else {
        advance(
            bounds,
            options,
            slot(items, bounds, options, (i - 1) as nat),
            items[i - 1].episode_run_time as nat,
        )
    }
}

/// The cursor at which item `i` is placed.
pub open spec fn slot(
    items: Seq<Episode>,
    bounds: SchedulingBoundaries,
    options: SchedulingOptions,
    i: nat,
) -> Cursor
    decreases i, 1nat,
{
    settle(bounds, options, cursor_before(items, bounds, options, i))
}

/// The moment at which item `i` is scheduled.
pub open spec fn scheduled_at(
    items: Seq<Episode>,
    bounds: SchedulingBoundaries,
    options: SchedulingOptions,
    i: nat,
) -> int {
    slot(items, bounds, options, i).at
}

/// Some item among the first `k` is scheduled after the window has closed.
pub open spec fn past_window(
    items: Seq<Episode>,
    bounds: SchedulingBoundaries,
    options: SchedulingOptions,
    k: nat,
) -> bool {
    exists|j: nat| j < k && #[trigger] scheduled_at(items, bounds, options, j) > bounds.closes_at()
}

/// Some item is scheduled after the last moment the library works with.
pub open spec fn out_of_range(
    items: Seq<Episode>,
    bounds: SchedulingBoundaries,
    options: SchedulingOptions,
) -> bool {
    exists|j: nat| j < items.len() && #[trigger] scheduled_at(items, bounds, options, j)
        > MAX_MOMENT
}

/// The event made for item `i`.
pub open spec fn planned_event(
    items: Seq<Episode>,
    ids: Seq<u128>,
    bounds: SchedulingBoundaries,
    options: SchedulingOptions,
    i: int,
) -> ScheduledEvent {
    ScheduledEvent {
        uuid: ids[i],
        scheduled_date: scheduled_at(items, bounds, options, i as nat) as i64,
        media_type: MediaType::tv,
        episode: Some(items[i]),
        movie: None,
        watched: false,
    }
}

/// The start of the next day lies one day and one weekday on, at the start
/// time, and after the moment it is taken from.
pub proof fn lemma_next_day_start(bounds: SchedulingBoundaries, t: int)
    requires
        bounds.well_formed(),
    ensures
        next_day_start(bounds, t) > t,
        day_of(next_day_start(bounds, t)) == day_of(t) + 1,
        second_of_day(next_day_start(bounds, t)) == bounds.start_time,
        weekday_of(next_day_start(bounds, t)) == weekday_after(weekday_of(t), 1),
{
}

/// Weekdays lie in the week, and a day on from `m` days on is `m + 1` days
/// on.
pub proof fn lemma_weekday_after(w: int, m: int)
    requires
        0 <= w < 7,
        0 <= m,
    ensures
        0 <= weekday_after(w, m) < 7,
        weekday_after(weekday_after(w, m), 1) == weekday_after(w, m + 1),
{
}

/// Where some weekday takes items, one of the seven days from any weekday on
/// takes items.
pub proof fn lemma_open_within_a_week(options: SchedulingOptions, w: int)
    requires
        0 <= w < 7,
        options.has_open_day(),
    ensures
        exists|m: int| 0 <= m < 7 && options.days_of_week@[#[trigger] weekday_after(w, m)],
{
    let open = choose|d: int| 0 <= d < 7 && #[trigger] options.days_of_week@[d];
    let m = (open - w) % 7;
    assert(weekday_after(w, m) == open);
}

/// Settling never moves the cursor back.
pub proof fn lemma_settle_not_earlier(
    bounds: SchedulingBoundaries,
    options: SchedulingOptions,
    c: Cursor,
    tries: nat,
)
    requires
        bounds.well_formed(),
    ensures
        settle_within(bounds, options, c, tries).at >= c.at,
        settle_within(bounds, options, c, tries) == c || day_of(
            settle_within(bounds, options, c, tries).at,
        ) > day_of(c.at),
    decreases tries,
{
    if tries == 0 || open_on(options, c.at) {
    } else {
        let next = Cursor { at: next_day_start(bounds, c.at), count: 0 };
        lemma_next_day_start(bounds, c.at);
        lemma_settle_not_earlier(bounds, options, next, (tries - 1) as nat);
    }
}

/// Once the cursor stands on a day that takes items, further tries change
/// nothing.
pub proof fn lemma_settle_stops(
    bounds: SchedulingBoundaries,
    options: SchedulingOptions,
    c: Cursor,
    tries: nat,
)
    requires
        open_on(options, c.at),
    ensures
        settle_within(bounds, options, c, tries) == c,
{
}

/// The result of distributing items.
#[derive(Debug, PartialEq, Eq)]
pub struct Distribution {
    /// One event per item, in the items' order.
    pub events: Vec<ScheduledEvent>,
    /// Whether some item was scheduled after the window had closed while
    /// the end of the window was to be respected.
    pub window_exceeded: bool,
}

/// Why items could not be distributed.
#[derive(Debug, Clone, Copy, PartialEq, Eq, Structural)]
pub enum DistributeError {
    /// No weekday takes items.
    NoDayAvailable,
    /// An item would be scheduled after the year 9999.
    OutOfRange,
}

/// Moves a cursor past the days that take no items.
///
/// Returns `None` when the settled cursor lies after the last moment the
/// library works with.
#[verifier::rlimit(50)]
pub fn settle_cursor(
    bounds: &SchedulingBoundaries,
    options: &SchedulingOptions,
    at: i64,
    count: usize,
) -> (r: Option<(i64, usize)>)
    requires
        bounds.well_formed(),
        options.has_open_day(),
        valid_moment(at as int),
    ensures
        match r {
            Some((a, c)) => {
                &&& settle(*bounds, *options, Cursor { at: at as int, count: count as nat })
                    == (Cursor { at: a as int, count: c as nat })
                &&& valid_moment(a as int)
                &&& open_on(*options, a as int)
                &&& c <= count
            },
            None => settle(*bounds, *options, Cursor { at: at as int, count: count as nat }).at
                > MAX_MOMENT,
        },
{
    let ghost first = weekday_of(at as int);
    let mut a: i64 = at;
    let mut c: usize = count;
    let mut tries: usize = 0;
    proof {
        assert(weekday_after(first, 0) == first);
    }
    while !options.days_of_week[weekday(a)]
        invariant
            bounds.well_formed(),
            options.has_open_day(),
            valid_moment(a as int),
            tries <= 7,
            c <= count,
            0 <= first < 7,
            settle(*bounds, *options, Cursor { at: at as int, count: count as nat })
                == settle_within(
                *bounds,
                *options,
                Cursor { at: a as int, count: c as nat },
                (7 - tries) as nat,
            ),
            weekday_of(a as int) == weekday_after(first, tries as int),
            forall|m: int|
                0 <= m < tries ==> !options.days_of_week@[#[trigger] weekday_after(first, m)],
        decreases 7 - tries,
    {
        proof {
            if tries == 7 {
                lemma_open_within_a_week(*options, first);
                assert(false);
            }
            lemma_next_day_start(*bounds, a as int);
            lemma_weekday_after(first, tries as int);
        }
        let ghost here = Cursor { at: a as int, count: c as nat };
        let ghost next = Cursor { at: next_day_start(*bounds, a as int), count: 0 };
        assert(settle_within(*bounds, *options, here, (7 - tries) as nat) == settle_within(
            *bounds,
            *options,
            next,
            (6 - tries) as nat,
        ));
        let d: i64 = day_number(a);
        if d >= MAX_DAY {
            proof {
                lemma_settle_not_earlier(*bounds, *options, next, (6 - tries) as nat);
            }
            return None;
        }
        a = moment(d + 1, bounds.start_time);
        c = 0;
        tries += 1;
    }
    proof {
        lemma_settle_stops(
            *bounds,
            *options,
            Cursor { at: a as int, count: c as nat },
            (7 - tries) as nat,
        );
    }
    Some((a, c))
}

/// Moves a cursor past an item of `runtime` minutes placed at it.
///
/// Returns `None` when the new cursor lies after the last moment the library
/// works with.
pub fn advance_cursor(
    bounds: &SchedulingBoundaries,
    options: &SchedulingOptions,
    at: i64,
    count: usize,
    runtime: usize,
) -> (r: Option<(i64, usize)>)
    requires
        bounds.well_formed(),
        valid_moment(at as int),
        count < usize::MAX,
    ensures
        match r {
            Some((a, c)) => {
                &&& advance(
                    *bounds,
                    *options,
                    Cursor { at: at as int, count: count as nat },
                    runtime as nat,
                ) == (Cursor { at: a as int, count: c as nat })
                &&& valid_moment(a as int)
                &&& c <= count + 1
            },
            None => advance(
                *bounds,
                *options,
                Cursor { at: at as int, count: count as nat },
                runtime as nat,
            ).at > MAX_MOMENT,
        },
{
    let wide: i128 = (at as i128) + 60 * (runtime as i128);
    if wide > MAX_MOMENT as i128 {
        return None;
    }
    let moved: i64 = wide as i64;
    let placed: usize = count + 1;
    let quota_met = options.eps_per_day != 0 && placed == options.eps_per_day;
    if quota_met || time_of_day(moved) > bounds.end_time {
        let d: i64 = day_number(moved);
        if d >= MAX_DAY {
            return None;
        }
        Some((moment(d + 1, bounds.start_time), 0))
    } else {
        Some((moved, placed))
    }
}

/// What a distribution of `items` under `bounds` and `options` must return
/// when the events are given the identifiers `ids`.
///
/// It succeeds exactly when there is nothing to place, or some weekday takes
/// items and every item is placed within the years the library works with.
/// On success there is one event per item, in the items' order, each at the
/// moment the cursor reaches for it, and the flag tells whether the end of
/// the window was to be respected and some item lies after it.
pub open spec fn distributes(
    r: Result<Distribution, DistributeError>,
    items: Seq<Episode>,
    ids: Seq<u128>,
    bounds: SchedulingBoundaries,
    options: SchedulingOptions,
) -> bool {
    match r {
        Ok(d) => {
            &&& items.len() == 0 || options.has_open_day()
            &&& !out_of_range(items, bounds, options)
            &&& d.events@.len() == items.len()
            &&& forall|i: int|
                0 <= i < items.len() ==> #[trigger] d.events@[i] == planned_event(
                    items,
                    ids,
                    bounds,
                    options,
                    i,
                )
            &&& d.window_exceeded == (options.use_end_date && past_window(
                items,
                bounds,
                options,
                items.len(),
            ))
        },
        Err(DistributeError::NoDayAvailable) => items.len() > 0 && !options.has_open_day(),
        Err(DistributeError::OutOfRange) => {
            &&& items.len() > 0
            &&& options.has_open_day()
            &&& out_of_range(items, bounds, options)
        },
    }
}

/// Draws a fresh identifier by `uuid::Uuid::new_v4`, read as a 128-bit
/// number. The value is random: nothing is claimed of it.
#[verifier::external_body]
fn fresh_id() -> (id: u128) {
    uuid::Uuid::new_v4().as_u128()
}

/// Distributes `items` over the days of the window, giving event `i` the
/// identifier `ids[i]`.
///
/// The cursor starts where the window opens. For each item it first moves
/// past the days that take no items, the item is placed there, and the cursor
/// moves on by the item's running time; when the day's quota is met or the
/// time of day is past the window's end time, it moves to the next day's
/// start. No item is dropped: running past the window's end is reported in
/// the result's flag.
#[verifier::rlimit(50)]
pub fn distribute_with_ids(
    items: &Vec<Episode>,
    ids: &Vec<u128>,
    bounds: &SchedulingBoundaries,
    options: &SchedulingOptions,
) -> (r: Result<Distribution, DistributeError>)
    requires
        bounds.well_formed(),
        ids.len() == items.len(),
    ensures
        distributes(r, items@, ids@, *bounds, *options),
{
    let n: usize = items.len();
    if n == 0 {
        return Ok(Distribution { events: Vec::new(), window_exceeded: false });
    }
    if !options.any_open_day() {
        return Err(DistributeError::NoDayAvailable);
    }
    let upper: i64 = moment(bounds.end_date, bounds.end_time);
    let mut events: Vec<ScheduledEvent> = Vec::new();
    let mut exceeded: bool = false;
    let mut at: i64 = moment(bounds.start_date, bounds.start_time);
    let mut count: usize = 0;
    let mut i: usize = 0;
    while i < n
        invariant
            n == items.len(),
            n == ids.len(),
            i <= n,
            bounds.well_formed(),
            options.has_open_day(),
            upper == bounds.closes_at(),
            valid_moment(at as int),
            count <= i,
            cursor_before(items@, *bounds, *options, i as nat) == (Cursor {
                at: at as int,
                count: count as nat,
            }),
            events@.len() == i,
            forall|j: int|
                0 <= j < i ==> #[trigger] events@[j] == planned_event(
                    items@,
                    ids@,
                    *bounds,
                    *options,
                    j,
                ),
            forall|j: nat|
                j < i ==> #[trigger] scheduled_at(items@, *bounds, *options, j) <= MAX_MOMENT,
            exceeded == (options.use_end_date && past_window(
                items@,
                *bounds,
                *options,
                i as nat,
            )),
        decreases n - i,
    {
        let (placed_at, placed_count): (i64, usize) = match settle_cursor(
            bounds,
            options,
            at,
            count,
        ) {
            Some(p) => p,
            None => {
                assert(scheduled_at(items@, *bounds, *options, i as nat) > MAX_MOMENT);
                return Err(DistributeError::OutOfRange);
            },
        };
        assert(scheduled_at(items@, *bounds, *options, i as nat) == placed_at);
        let event = ScheduledEvent::for_episode(ids[i], placed_at, items[i].clone());
        assert(event == planned_event(items@, ids@, *bounds, *options, i as int));
        events.push(event);
        let late: bool = options.use_end_date && placed_at > upper;
        proof {
            let before = past_window(items@, *bounds, *options, i as nat);
            let after = past_window(items@, *bounds, *options, (i + 1) as nat);
            let here = scheduled_at(items@, *bounds, *options, i as nat) > bounds.closes_at();
            if before {
                let j = choose|j: nat|
                    j < i && #[trigger] scheduled_at(items@, *bounds, *options, j)
                        > bounds.closes_at();
                assert(j < i + 1);
            }
            if after {
                let j = choose|j: nat|
                    j < i + 1 && #[trigger] scheduled_at(items@, *bounds, *options, j)
                        > bounds.closes_at();
                assert(j < i || j == i);
            }
            assert(after == (before || here));
        }
        exceeded = exceeded || late;
        let runtime: usize = items[i].episode_run_time;
        assert(cursor_before(items@, *bounds, *options, (i + 1) as nat) == advance(
            *bounds,
            *options,
            slot(items@, *bounds, *options, i as nat),
            runtime as nat,
        ));
        match advance_cursor(bounds, options, placed_at, placed_count, runtime) {
            Some((a, c)) => {
                at = a;
                count = c;
            },
            None => {
                if i + 1 < n {
                    proof {
                        lemma_settle_not_earlier(
                            *bounds,
                            *options,
                            cursor_before(items@, *bounds, *options, (i + 1) as nat),
                            7,
                        );
                        assert(scheduled_at(items@, *bounds, *options, (i + 1) as nat)
                            > MAX_MOMENT);
                    }
                    return Err(DistributeError::OutOfRange);
                } else {
                    return Ok(Distribution { events, window_exceeded: exceeded });
                }
            },
        }
        i += 1;
    }
    Ok(Distribution { events, window_exceeded: exceeded })
}

/// Distributes `items` over the days of the window, drawing a fresh
/// identifier for each event.
///
/// The result is that of [`distribute_with_ids`] for the identifiers drawn.
pub fn distribute(
    items: &Vec<Episode>,
    bounds: &SchedulingBoundaries,
    options: &SchedulingOptions,
) -> (r: Result<Distribution, DistributeError>)
    requires
        bounds.well_formed(),
    ensures
        exists|ids: Seq<u128>|
            ids.len() == items.len() && #[trigger] distributes(
                r,
                items@,
                ids,
                *bounds,
                *options,
            ),
{
    let n: usize = items.len();
    let mut ids: Vec<u128> = Vec::new();
    while ids.len() < n
        invariant
            ids.len() <= n,
        decreases n - ids.len(),
    {
        ids.push(fresh_id());
    }
    distribute_with_ids(items, &ids, bounds, options)
}

/// Schedules one movie at a chosen day and time of day, with the identifier
/// `id`.
pub fn schedule_movie_with_id(movie: Movie, date: i64, time: u32, id: u128) -> (e: ScheduledEvent)
    requires
        valid_day(date as int),
        valid_time(time as int),
    ensures
        e == (ScheduledEvent {
            uuid: id,
            scheduled_date: moment_at(date as int, time as int) as i64,
            media_type: MediaType::movie,
            episode: None,
            movie: Some(movie),
            watched: false,
        }),
        e.well_formed(),
{
    ScheduledEvent::for_movie(id, moment(date, time), movie)
}

/// Schedules one movie at a chosen day and time of day, drawing a fresh
/// identifier for the event.
pub fn schedule_movie(movie: Movie, date: i64, time: u32) -> (e: ScheduledEvent)
    requires
        valid_day(date as int),
        valid_time(time as int),
    ensures
        e.scheduled_date == moment_at(date as int, time as int),
        e.media_type == MediaType::movie,
        e.episode is None,
        e.movie == Some(movie),
        !e.watched,
        e.well_formed(),
{
    schedule_movie_with_id(movie, date, time, fresh_id())
}

/// One season of a show with the episodes that can be scheduled.
#[derive(Debug, Clone, PartialEq, Eq)]
pub struct Season {
    pub id: usize,
    pub air_date: Option<String>,
    pub name: Option<String>,
    pub overview: Option<String>,
    pub poster_path: Option<String>,
    pub season_number: usize,
    pub episodes: Option<Vec<Episode>>,
}

/// The running time assumed where neither episode nor show gives one.
pub const DEFAULT_RUNTIME: usize = 60;

/// The largest of the running times `s`, or 0 where there is none.
pub open spec fn longest(s: Seq<usize>) -> usize
    decreases s.len(),
{
    if s.len() == 0 {
        0
    } else if s.last() > longest(s.drop_last()) {
        s.last()
    } else {
        longest(s.drop_last())
    }
}

/// The running time of an episode that gives none: the longest that the
/// show declares, or 60 minutes where the show declares none.
pub open spec fn fallback_runtime(run_times: Seq<usize>) -> usize {
    if run_times.len() == 0 {
        DEFAULT_RUNTIME
    } else {
        longest(run_times)
    }
}

/// The longest running time is one of the running times and none is longer.
pub proof fn lemma_longest(s: Seq<usize>)
    requires
        s.len() > 0,
    ensures
        s.contains(longest(s)),
        forall|i: int| 0 <= i < s.len() ==> #[trigger] s[i] <= longest(s),
    decreases s.len(),
{
    let front = s.drop_last();
    let last = s.len() - 1;
    if front.len() > 0 {
        lemma_longest(front);
        assert forall|i: int| 0 <= i < s.len() implies #[trigger] s[i] <= longest(s) by {
            if i < front.len() {
                assert(front[i] == s[i]);
            }
        }
        if s.last() > longest(front) {
            assert(s[last] == longest(s));
        } else {
            let i = choose|i: int| 0 <= i < front.len() && front[i] == longest(front);
            assert(s[i] == longest(s));
        }
    } else {
        assert(longest(front) == 0);
        assert(s[last] == longest(s));
    }
}

/// The running time of an episode that gives none: 60 minutes where the
/// show declares no running time, else the longest that it declares.
pub fn fuzzy_runtime_max(run_times: &Vec<usize>) -> (m: usize)
    ensures
        m == fallback_runtime(run_times@),
        run_times@.len() == 0 ==> m == 60,
        run_times@.len() > 0 ==> run_times@.contains(m),
        forall|i: int| 0 <= i < run_times@.len() ==> #[trigger] run_times@[i] <= m,
{
    let n: usize = run_times.len();
    if n == 0 {
        return DEFAULT_RUNTIME;
    }
    let mut m: usize = 0;
    let mut i: usize = 0;
    while i < n
        invariant
            n == run_times.len(),
            i <= n,
            m == longest(run_times@.take(i as int)),
        decreases n - i,
    {
        proof {
            assert(run_times@.take(i + 1).drop_last() =~= run_times@.take(i as int));
        }
        if run_times[i] > m {
            m = run_times[i];
        }
        i += 1;
    }
    proof {
        assert(run_times@.take(n as int) =~= run_times@);
        lemma_longest(run_times@);
    }
    m
}

/// Whether `e` is the episode that the catalog's record `ep` describes for
/// the show `show_name` with number `show_id`: the record's fields, the word
/// `unknown` for a missing air date, and the record's running time or else
/// `fallback`.
pub open spec fn is_episode_of(
    e: Episode,
    ep: TMDBEpisodeObj,
    show_name: String,
    show_id: usize,
    fallback: usize,
) -> bool {
    &&& e.air_date@ == (match ep.air_date {
        Some(d) => d@,
        None => "unknown"@,
    })
    &&& e.episode_number == ep.episode_number
    &&& e.name == ep.name
    &&& e.id == ep.id
    &&& e.season_number == ep.season_number
    &&& e.still_path == ep.still_path
    &&& e.episode_run_time == (match ep.runtime {
        Some(r) => r,
        None => fallback,
    })
    &&& e.show_name == show_name
    &&& e.show_id == show_id
}

/// Whether `s` is the season that the catalog's record `so` describes: the
/// record's fields and one episode per record of an episode, in their order.
pub open spec fn is_season_of(
    s: Season,
    so: TMDBSeasonObj,
    show_name: String,
    show_id: usize,
    fallback: usize,
) -> bool {
    &&& s.id == so.id
    &&& s.air_date == so.air_date
    &&& s.name == so.name
    &&& s.overview == so.overview
    &&& s.poster_path == so.poster_path
    &&& s.season_number == so.season_number
    &&& s.episodes is Some
    &&& s.episodes->Some_0@.len() == so.episodes@.len()
    &&& forall|i: int|
        0 <= i < so.episodes@.len() ==> is_episode_of(
            #[trigger] s.episodes->Some_0@[i],
            so.episodes@[i],
            show_name,
            show_id,
            fallback,
        )
}

/// The episode that a record of the catalog describes.
pub fn episode_from_catalog(
    ep: &TMDBEpisodeObj,
    show_name: &String,
    show_id: usize,
    fallback: usize,
) -> (e: Episode)
    ensures
        is_episode_of(e, *ep, *show_name, show_id, fallback),
{
    Episode {
        air_date: match &ep.air_date {
            Some(d) => d.clone(),
            None => String::from_str("unknown"),
        },
        episode_number: ep.episode_number,
        name: ep.name.clone(),
        id: ep.id,
        season_number: ep.season_number,
        still_path: clone_text(&ep.still_path),
        episode_run_time: match ep.runtime {
            Some(r) => r,
            None => fallback,
        },
        show_name: show_name.clone(),
        show_id,
    }
}

/// The season that a record of the catalog describes.
pub fn season_from_catalog(
    so: &TMDBSeasonObj,
    show_name: &String,
    show_id: usize,
    fallback: usize,
) -> (s: Season)
    ensures
        is_season_of(s, *so, *show_name, show_id, fallback),
{
    let n: usize = so.episodes.len();
    let mut episodes: Vec<Episode> = Vec::new();
    let mut i: usize = 0;
    while i < n
        invariant
            n == so.episodes.len(),
            i <= n,
            episodes@.len() == i,
            forall|j: int|
                0 <= j < i ==> is_episode_of(
                    #[trigger] episodes@[j],
                    so.episodes@[j],
                    *show_name,
                    show_id,
                    fallback,
                ),
        decreases n - i,
    {
        episodes.push(episode_from_catalog(&so.episodes[i], show_name, show_id, fallback));
        i += 1;
    }
    Season {
        id: so.id,
        air_date: clone_text(&so.air_date),
        name: clone_text(&so.name),
        overview: clone_text(&so.overview),
        poster_path: clone_text(&so.poster_path),
        season_number: so.season_number,
        episodes: Some(episodes),
    }
}

/// The seasons of a show from the catalog's records, in their order. An
/// episode without a running time gets the longest that the show declares
/// in `run_times`, or 60 minutes where it declares none.
pub fn seasons_from_catalog(
    catalog: &Vec<TMDBSeasonObj>,
    show_name: &String,
    show_id: usize,
    run_times: &Vec<usize>,
) -> (seasons: Vec<Season>)
    ensures
        seasons@.len() == catalog@.len(),
        forall|i: int|
            0 <= i < catalog@.len() ==> is_season_of(
                #[trigger] seasons@[i],
                catalog@[i],
                *show_name,
                show_id,
                fallback_runtime(run_times@),
            ),
{
    let fallback: usize = fuzzy_runtime_max(run_times);
    let n: usize = catalog.len();
    let mut seasons: Vec<Season> = Vec::new();
    let mut i: usize = 0;
    while i < n
        invariant
            n == catalog.len(),
            i <= n,
            fallback == fallback_runtime(run_times@),
            seasons@.len() == i,
            forall|j: int|
                0 <= j < i ==> is_season_of(
                    #[trigger] seasons@[j],
                    catalog@[j],
                    *show_name,
                    show_id,
                    fallback,
                ),
        decreases n - i,
    {
        seasons.push(season_from_catalog(&catalog[i], show_name, show_id, fallback));
        i += 1;
    }
    seasons
}

/// The window that four texts of a form describe: days as `YYYY-MM-DD`,
/// times as `HH:MM`.
pub open spec fn boundaries_read(
    start_date: Seq<char>,
    start_time: Seq<char>,
    end_date: Seq<char>,
    end_time: Seq<char>,
) -> Option<SchedulingBoundaries> {
    match (
        parsed_day(start_date),
        parsed_time_of_day(start_time),
        parsed_day(end_date),
        parsed_time_of_day(end_time),
    ) {
        (Some(sd), Some(st), Some(ed), Some(et)) => Some(
            SchedulingBoundaries { start_date: sd, start_time: st, end_date: ed, end_time: et },
        ),
        _ => None,
    }
}

/// Reads a window from the four texts of a form; `None` where one of them
/// is not read.
pub fn boundaries_from_input(start_date: &str, start_time: &str, end_date: &str, end_time: &str) -> (r:
    Option<SchedulingBoundaries>)
    ensures
        r == boundaries_read(start_date@, start_time@, end_date@, end_time@),
        r matches Some(b) ==> b.well_formed(),
{
    let sd: i64 = match parse_day(start_date) {
        Some(d) => d,
        None => {
            return None;
        },
    };
    let st: u32 = match parse_time(start_time) {
        Some(t) => t,
        None => {
            return None;
        },
    };
    let ed: i64 = match parse_day(end_date) {
        Some(d) => d,
        None => {
            return None;
        },
    };
    let et: u32 = match parse_time(end_time) {
        Some(t) => t,
        None => {
            return None;
        },
    };
    Some(SchedulingBoundaries { start_date: sd, start_time: st, end_date: ed, end_time: et })
}

/// Reads the options of a form: the weekdays as ticked, the quota from its
/// text, and whether the end of the window counts; `None` where the quota
/// is no number.
pub fn options_from_input(days_of_week: [bool; 7], eps_per_day: &str, use_end_date: bool) -> (r:
    Option<SchedulingOptions>)
    ensures
        r == (match number_read(eps_per_day@) {
            Some(n) => Some(SchedulingOptions { days_of_week, eps_per_day: n, use_end_date }),
            None => None,
        }),
{
    match parse_number(eps_per_day) {
        Some(n) => Some(SchedulingOptions { days_of_week, eps_per_day: n, use_end_date }),
        None => None,
    }
}

/// The steps of scheduling a show.
#[derive(Debug, Clone, Copy, PartialEq, Eq, Structural)]
pub enum ScheduleShowState {
    /// The catalog has not answered yet, or the schedule is stored.
    Loading,
    /// The seasons are shown and episodes are chosen.
    ShowPicker,
    /// The window and the options are asked for.
    EpisodeScheduler,
    /// The moment of a movie is asked for.
    MovieScheduler,
}

impl Default for ScheduleShowState {
    fn default() -> (s: Self)
        ensures
            s == ScheduleShowState::Loading,
    {
        ScheduleShowState::Loading
    }
}

/// What happens while a show is scheduled.
#[derive(Debug, Clone, Copy, PartialEq, Eq, Structural)]
pub enum ScheduleShowEvent {
    /// The catalog has described the entry of the given kind.
    ShowResult(MediaType),
    /// The catalog has listed the seasons.
    SeasonsResult,
    /// The episodes are chosen.
    ScheduleEpisodes,
    /// The events were handed to the store; the flag tells whether the
    /// store could write them.
    Stored(bool),
}

/// What is to be done after a step.
#[derive(Debug, Clone, Copy, PartialEq, Eq, Structural)]
pub enum ScheduleShowAction {
    /// Nothing but to show the new state.
    Show,
    /// The seasons of the show are to be asked for.
    FetchSeasons,
    /// The dialogue is to be closed.
    Close,
}

impl ScheduleShowState {
    /// The state after an event and what is to be done: a show asks for its
    /// seasons, a movie for its moment; the seasons open the choice of
    /// episodes, the choice opens the form of the schedule; once the events
    /// are stored the dialogue begins anew, and after an attempt to store
    /// them it is closed.
    pub open spec fn next(self, event: ScheduleShowEvent) -> (ScheduleShowState, ScheduleShowAction) {
        match event {
            ScheduleShowEvent::ShowResult(MediaType::tv) => (self, ScheduleShowAction::FetchSeasons),
            ScheduleShowEvent::ShowResult(MediaType::movie) => (
                ScheduleShowState::MovieScheduler,
                ScheduleShowAction::Show,
            ),
            ScheduleShowEvent::ShowResult(_) => (self, ScheduleShowAction::Show),
            ScheduleShowEvent::SeasonsResult => (
                ScheduleShowState::ShowPicker,
                ScheduleShowAction::Show,
            ),
            ScheduleShowEvent::ScheduleEpisodes => (
                ScheduleShowState::EpisodeScheduler,
                ScheduleShowAction::Show,
            ),
            ScheduleShowEvent::Stored(true) => (
                ScheduleShowState::Loading,
                ScheduleShowAction::Close,
            ),
            ScheduleShowEvent::Stored(false) => (self, ScheduleShowAction::Close),
        }
    }

    /// The state after an event and what is to be done.
    pub fn step(self, event: ScheduleShowEvent) -> (r: (ScheduleShowState, ScheduleShowAction))
        ensures
            r == self.next(event),
    {
        match event {
            ScheduleShowEvent::ShowResult(kind) => match kind {
                MediaType::tv => (self, ScheduleShowAction::FetchSeasons),
                MediaType::movie => (ScheduleShowState::MovieScheduler, ScheduleShowAction::Show),
                _ => (self, ScheduleShowAction::Show),
            },
            ScheduleShowEvent::SeasonsResult => (
                ScheduleShowState::ShowPicker,
                ScheduleShowAction::Show,
            ),
            ScheduleShowEvent::ScheduleEpisodes => (
                ScheduleShowState::EpisodeScheduler,
                ScheduleShowAction::Show,
            ),
            ScheduleShowEvent::Stored(written) => if written {
                (ScheduleShowState::Loading, ScheduleShowAction::Close)
            } else {
                (self, ScheduleShowAction::Close)
            },
        }
    }
}

} // verus!
