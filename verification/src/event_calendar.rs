//! What the calendar view reads: the face of a schedulable item and the
//! cells of a month.

use vstd::prelude::*;
use vstd::string::StringExecFns;
use crate::clock::{
    civil_date, civil_date_of, civil_moment, civil_to_moment, clock_string, clock_text, day_number,
    day_of, second_of_day, time_of_day, valid_moment, weekday_of_day,
};
use crate::events::ScheduledEvent;
use crate::schedule_show::Episode;
use crate::search_client::MediaType;
use crate::text::{decimal, decimal_string};

verus! {

/// What the calendar shows of an item that can be scheduled.
pub trait CalendarSchedulableEvent {
    fn id(&self) -> String;

    fn name(&self) -> String;

    fn media_type(&self) -> MediaType;

    fn description(&self) -> String;

    /// Running time in minutes.
    fn duration(&self) -> usize;
}

impl CalendarSchedulableEvent for Episode {
    fn id(&self) -> (s: String)
        ensures
            s@ == decimal(self.id as nat),
    {
        decimal_string(self.id)
    }

    fn name(&self) -> (s: String)
        ensures
            s == self.name,
    {
        self.name.clone()
    }

    fn media_type(&self) -> (m: MediaType)
        ensures
            m == MediaType::tv,
    {
        MediaType::tv
    }

    fn description(&self) -> (s: String)
        ensures
            s@ == "// Not implemented"@,
    {
        String::from_str("// Not implemented")
    }

    fn duration(&self) -> (m: usize)
        ensures
            m == self.episode_run_time,
    {
        self.episode_run_time
    }
}

/// The line and the icon under which the calendar lists an event: the time
/// on the twenty-four-hour clock with show and episode, or with the movie's
/// title.
pub open spec fn label_text(e: ScheduledEvent) -> (Seq<char>, Seq<char>) {
    let time = clock_text(second_of_day(e.scheduled_date as int));
    match e.media_type {
        MediaType::tv => (
            " "@ + time + " | "@ + e.episode->Some_0.show_name@ + " - "@ + e.episode->Some_0.name@,
            "gg-tv"@,
        ),
        MediaType::movie => (" "@ + time + " | "@ + e.movie->Some_0.show_name@, "gg-film"@),
        MediaType::actor => ("Unknown Actor"@, "gg-boy"@),
        MediaType::person => ("Unknown Person"@, "gg-boy"@),
        MediaType::unknown => ("Unknown"@, "gg-danger"@),
    }
}

/// The line and the icon under which the calendar lists an event, or `None`
/// where the event's kind names an item that the event does not hold.
pub fn event_label(e: &ScheduledEvent) -> (r: Option<(String, String)>)
    ensures
        r is None == ((e.media_type == MediaType::tv && e.episode is None) || (e.media_type
            == MediaType::movie && e.movie is None)),
        r matches Some(label) ==> (label.0@, label.1@) == label_text(*e),
{
    match e.media_type {
        MediaType::tv => match &e.episode {
            Some(ep) => {
                let mut s = String::from_str(" ");
                s.append(clock_string(time_of_day(e.scheduled_date)).as_str());
                s.append(" | ");
                s.append(ep.show_name.as_str());
                s.append(" - ");
                s.append(ep.name.as_str());
                Some((s, String::from_str("gg-tv")))
            },
            None => None,
        },
        MediaType::movie => match &e.movie {
            Some(mv) => {
                let mut s = String::from_str(" ");
                s.append(clock_string(time_of_day(e.scheduled_date)).as_str());
                s.append(" | ");
                s.append(mv.show_name.as_str());
                Some((s, String::from_str("gg-film")))
            },
            None => None,
        },
        MediaType::actor => Some((String::from_str("Unknown Actor"), String::from_str("gg-boy"))),
        MediaType::person => Some((String::from_str("Unknown Person"), String::from_str("gg-boy"))),
        MediaType::unknown => Some((String::from_str("Unknown"), String::from_str("gg-danger"))),
    }
}

/// The cells of a month that begins on day `first` and has `count` days, in
/// rows of seven from Monday to Sunday: an empty cell for each weekday
/// before the first day, then the days, then empty cells up to the end of
/// the last row.
pub open spec fn month_cells(first: int, count: int) -> Seq<Option<i64>> {
    let lead = weekday_of_day(first);
    let used = lead + count;
    let total = ((used + 6) / 7) * 7;
    Seq::new(
        total as nat,
        |i: int|
            if lead <= i < used {
                Some((first + i - lead) as i64)
            } else {
                None
            },
    )
}

/// The cells of a month that begins on day `first` and has `count` days.
pub fn calendar_cells(first: i64, count: u32) -> (cells: Vec<Option<i64>>)
    requires
        crate::clock::valid_day(first as int),
        count <= 31,
    ensures
        cells@ == month_cells(first as int, count as int),
        cells@.len() % 7 == 0,
{
    let lifted: u64 = (first - crate::clock::MIN_DAY) as u64;
    // 0001-01-01 was a Monday.
    let lead: usize = (lifted % 7) as usize;
    let used: usize = lead + count as usize;
    let total: usize = ((used + 6) / 7) * 7;
    let mut cells: Vec<Option<i64>> = Vec::new();
    let mut i: usize = 0;
    while i < total
        invariant
            i <= total,
            lead == weekday_of_day(first as int),
            used == lead + count,
            total == ((used + 6) / 7) * 7,
            count <= 31,
            crate::clock::valid_day(first as int),
            cells@.len() == i,
            forall|j: int| 0 <= j < i ==> #[trigger] cells@[j] == month_cells(first as int, count as int)[j],
        decreases total - i,
    {
        if lead <= i && i < used {
            cells.push(Some(first + ((i - lead) as i64)));
        } else {
            cells.push(None);
        }
        i += 1;
    }
    assert(cells@ =~= month_cells(first as int, count as int));
    cells
}

/// The first day of the month in which moment `t` falls and the number of
/// its days, as chrono's dates give them: the month lasts until the first
/// day of the next month of the year, and where the year has no next month
/// it has 31 days. `None` where chrono knows no first day, or where the
/// month would have no day or more than 31.
pub open spec fn month_of(t: int) -> Option<(i64, u32)> {
    let (year, month, day) = civil_date(t);
    match civil_moment(year, month, 1, 0, 0, 0) {
        Some(first) => {
            let count = match civil_moment(year, month + 1, 1, 0, 0, 0) {
                Some(next) => day_of(next) - day_of(first),
                None => 31,
            };
            if valid_moment(first) && 1 <= count <= 31 {
                Some((day_of(first) as i64, count as u32))
            } else {
                None
            }
        },
        None => None,
    }
}

/// The cells of the month in which moment `date` falls: those of
/// [`calendar_cells`] for the month that [`month_of`] finds, or `None`
/// where it finds none.
pub fn get_calendar_cells(date: i64) -> (r: Option<Vec<Option<i64>>>)
    requires
        valid_moment(date as int),
    ensures
        r is Some == month_of(date as int) is Some,
        r matches Some(cells) ==> cells@ == month_cells(
            month_of(date as int)->Some_0.0 as int,
            month_of(date as int)->Some_0.1 as int,
        ),
{
    let (year, month, _day): (i32, u32, u32) = civil_date_of(date);
    let first: i64 = match civil_to_moment(year, month, 1, 0, 0, 0) {
        Some(t) => t,
        None => {
            return None;
        },
    };
    if first < crate::clock::MIN_MOMENT || first > crate::clock::MAX_MOMENT {
        return None;
    }
    let first_day: i64 = day_number(first);
    let count: i64 = match civil_to_moment(year, month + 1, 1, 0, 0, 0) {
        Some(next) => {
            let wide: i128 = (day_number(next) as i128) - (first_day as i128);
            if wide < 1 || wide > 31 {
                return None;
            }
            wide as i64
        },
        None => 31,
    };
    Some(calendar_cells(first_day, count as u32))
}

/// The moment to which the calendar turns from moment `t` for the next
/// month: one second into the first day of the month after that of `t`, as
/// chrono's dates give it, where it lies within the years 1 to 9999 and the
/// year can be counted on.
pub open spec fn next_month_of(t: int) -> Option<i64> {
    let (year, month, day) = civil_date(t);
    let turned = if month + 1 != 13 {
        civil_moment(year, month + 1, 1, 0, 0, 1)
    } else if year < i32::MAX {
        civil_moment(year + 1, 1, 1, 0, 0, 1)
    } else {
        None
    };
    match turned {
        Some(first) => if valid_moment(first) {
            Some(first as i64)
        } else {
            None
        },
        None => None,
    }
}

/// The moment to which the calendar turns from moment `t` for the month
/// before: one second into the day before the first day of the month of
/// `t`, where it lies within the years 1 to 9999.
pub open spec fn previous_month_of(t: int) -> Option<i64> {
    let (year, month, day) = civil_date(t);
    match civil_moment(year, month, 1, 0, 0, 0) {
        Some(first) => if valid_moment(first - 86_399) && valid_moment(first) {
            Some((first - 86_399) as i64)
        } else {
            None
        },
        None => None,
    }
}

/// The moment to which the calendar turns for the next month.
pub fn next_month(date: i64) -> (r: Option<i64>)
    requires
        valid_moment(date as int),
    ensures
        r == next_month_of(date as int),
{
    let (year, month, _day): (i32, u32, u32) = civil_date_of(date);
    let turned = if month + 1 != 13 {
        civil_to_moment(year, month + 1, 1, 0, 0, 1)
    } else if year < i32::MAX {
        civil_to_moment(year + 1, 1, 1, 0, 0, 1)
    } else {
        None
    };
    match turned {
        Some(first) => if crate::clock::is_valid_moment(first) {
            Some(first)
        } else {
            None
        },
        None => None,
    }
}

/// The moment to which the calendar turns for the month before.
pub fn previous_month(date: i64) -> (r: Option<i64>)
    requires
        valid_moment(date as int),
    ensures
        r == previous_month_of(date as int),
{
    let (year, month, _day): (i32, u32, u32) = civil_date_of(date);
    match civil_to_moment(year, month, 1, 0, 0, 0) {
        Some(first) => {
            if crate::clock::is_valid_moment(first) && crate::clock::is_valid_moment(
                first - 86_399,
            ) {
                Some(first - 86_399)
            } else {
                None
            }
        },
        None => None,
    }
}

} // verus!
