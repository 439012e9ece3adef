//! The store of scheduled events: kept in one collection that is rewritten
//! as a whole, ordered by date whenever events are added.

use vstd::prelude::*;
use vstd::seq_lib::{
    lemma_multiset_commutative, to_multiset_build, to_multiset_contains, to_multiset_insert,
};
use vstd::string::StringExecFns;
use crate::clock::{
    date_string, date_text, day_number, day_of, second_of_day, time_of_day, time_of_day_after,
    time_string, time_text,
};
use crate::events::ScheduledEvent;
use crate::search_client::MediaType;
use crate::site_config::ByngerStore;
use crate::text::{decimal, decimal_string};

verus! {

/// Where an event of date `date` goes into `s`: behind the last event that is
/// not later than it.
pub open spec fn insert_position(s: Seq<ScheduledEvent>, date: int) -> nat
    decreases s.len(),
{
    if s.len() == 0 || s.last().scheduled_date <= date {
        s.len()
    } else {
        insert_position(s.drop_last(), date)
    }
}

/// `s` with `e` put in behind the events that are not later than it.
pub open spec fn insert_by_date(s: Seq<ScheduledEvent>, e: ScheduledEvent) -> Seq<ScheduledEvent> {
    s.insert(insert_position(s, e.scheduled_date as int) as int, e)
}

/// The events of `s` by ascending date; events of one date keep their order.
pub open spec fn sorted_by_date(s: Seq<ScheduledEvent>) -> Seq<ScheduledEvent>
    decreases s.len(),
{
    if s.len() == 0 {
        Seq::empty()
    } else {
        insert_by_date(sorted_by_date(s.drop_last()), s.last())
    }
}

/// No event of `s` is later than one behind it.
pub open spec fn ordered_by_date(s: Seq<ScheduledEvent>) -> bool {
    forall|i: int, j: int|
        0 <= i < j < s.len() ==> (#[trigger] s[i]).scheduled_date <= (
        #[trigger] s[j]).scheduled_date
}

/// The insert position lies behind every event that is not later and before
/// every event that is later, where `s` is ordered.
pub proof fn lemma_insert_position(s: Seq<ScheduledEvent>, date: int)
    ensures
        insert_position(s, date) <= s.len(),
        forall|j: int|
            insert_position(s, date) <= j < s.len() ==> (#[trigger] s[j]).scheduled_date > date,
        insert_position(s, date) == 0 || s[insert_position(s, date) - 1].scheduled_date <= date,
    decreases s.len(),
{
    if s.len() == 0 || s.last().scheduled_date <= date {
    } else {
        let front = s.drop_last();
        lemma_insert_position(front, date);
        assert forall|j: int| insert_position(s, date) <= j < s.len() implies (
        #[trigger] s[j]).scheduled_date > date by {
            if j < front.len() {
                assert(front[j] == s[j]);
            }
        }
    }
}

/// The one position with no later event before it and only later events
/// behind it is the insert position.
pub proof fn lemma_insert_position_found(s: Seq<ScheduledEvent>, date: int, p: int)
    requires
        0 <= p <= s.len(),
        forall|j: int| p <= j < s.len() ==> (#[trigger] s[j]).scheduled_date > date,
        p == 0 || s[p - 1].scheduled_date <= date,
    ensures
        insert_position(s, date) == p,
    decreases s.len(),
{
    if s.len() == 0 || s.last().scheduled_date <= date {
    } else {
        lemma_insert_position_found(s.drop_last(), date, p);
    }
}

/// Putting an event into an ordered collection leaves it ordered and adds
/// just that event.
pub proof fn lemma_insert_by_date(s: Seq<ScheduledEvent>, e: ScheduledEvent)
    ensures
        insert_by_date(s, e).len() == s.len() + 1,
        insert_by_date(s, e).to_multiset() == s.to_multiset().insert(e),
        ordered_by_date(s) ==> ordered_by_date(insert_by_date(s, e)),
{
    let p = insert_position(s, e.scheduled_date as int) as int;
    lemma_insert_position(s, e.scheduled_date as int);
    to_multiset_insert(s, p, e);
    let r = insert_by_date(s, e);
    assert(r.len() == s.len() + 1);
    assert forall|i: int| 0 <= i < r.len() implies #[trigger] r[i] == (if i < p {
        s[i]
    } else if i == p {
        e
    } else {
        s[i - 1]
    }) by {}
    if ordered_by_date(s) {
        assert forall|i: int, j: int| 0 <= i < j < r.len() implies (#[trigger] r[i]).scheduled_date
            <= (#[trigger] r[j]).scheduled_date by {
            if p > 0 {
                assert(s[p - 1].scheduled_date <= e.scheduled_date);
            }
            if i < p {
                if i < p - 1 {
                    assert(s[i].scheduled_date <= s[p - 1].scheduled_date);
                }
            }
            if j > p {
                assert(s[j - 1].scheduled_date > e.scheduled_date);
            }
        }
    }
}

/// Sorting orders the events and neither adds nor drops one.
pub proof fn law_sorted_by_date(s: Seq<ScheduledEvent>)
    ensures
        ordered_by_date(sorted_by_date(s)),
        sorted_by_date(s).to_multiset() == s.to_multiset(),
        sorted_by_date(s).len() == s.len(),
    decreases s.len(),
{
    if s.len() == 0 {
        assert(sorted_by_date(s) =~= s);
    } else {
        law_sorted_by_date(s.drop_last());
        lemma_insert_by_date(sorted_by_date(s.drop_last()), s.last());
        to_multiset_build(s.drop_last(), s.last());
        assert(s.drop_last().push(s.last()) =~= s);
    }
}

/// Whether an event is scheduled at the moment `date`.
pub open spec fn on_date(date: int) -> spec_fn(ScheduledEvent) -> bool {
    |e: ScheduledEvent| e.scheduled_date == date
}

/// Among the events of one date, an event that is put in comes last.
#[verifier::rlimit(50)]
pub proof fn lemma_insert_is_stable(s: Seq<ScheduledEvent>, e: ScheduledEvent, date: int)
    ensures
        insert_by_date(s, e).filter(on_date(date)) == (if e.scheduled_date == date {
            s.filter(on_date(date)).push(e)
        } else {
            s.filter(on_date(date))
        }),
{
    let p = insert_position(s, e.scheduled_date as int) as int;
    lemma_insert_position(s, e.scheduled_date as int);
    let front = s.subrange(0, p);
    let back = s.subrange(p, s.len() as int);
    let wanted = on_date(date);
    assert(s =~= front + back);
    assert(insert_by_date(s, e) =~= front.push(e) + back);
    Seq::filter_distributes_over_add(front, back, wanted);
    Seq::filter_distributes_over_add(front.push(e), back, wanted);
    front.lemma_filter_push(e, wanted);
    if e.scheduled_date == date {
        assert forall|i: int| 0 <= i < back.len() implies !wanted(#[trigger] back[i]) by {
            assert(back[i] == s[p + i]);
        }
        assert(back.all(|x: ScheduledEvent| !wanted(x)));
        back.lemma_all_neg_filter_empty(wanted);
        assert(back.filter(wanted) =~= Seq::<ScheduledEvent>::empty());
        assert(front.filter(wanted) + back.filter(wanted) =~= front.filter(wanted));
        assert(front.filter(wanted).push(e) + back.filter(wanted) =~= front.filter(wanted).push(e));
    }
}

/// Sorting is stable: the events of one date stand in the order in which
/// they stood before.
pub proof fn law_sort_is_stable(s: Seq<ScheduledEvent>, date: int)
    ensures
        sorted_by_date(s).filter(on_date(date)) == s.filter(on_date(date)),
    decreases s.len(),
{
    if s.len() == 0 {
        assert(sorted_by_date(s) =~= s);
    } else {
        law_sort_is_stable(s.drop_last(), date);
        lemma_insert_is_stable(sorted_by_date(s.drop_last()), s.last(), date);
        s.drop_last().lemma_filter_push(s.last(), on_date(date));
        assert(s.drop_last().push(s.last()) =~= s);
    }
}

/// The events by ascending date; events of one date keep their order.
pub fn sort_by_date(events: &Vec<ScheduledEvent>) -> (r: Vec<ScheduledEvent>)
    ensures
        r@ == sorted_by_date(events@),
        ordered_by_date(r@),
        r@.to_multiset() == events@.to_multiset(),
        r@.len() == events@.len(),
{
    let n: usize = events.len();
    let mut out: Vec<ScheduledEvent> = Vec::new();
    let mut i: usize = 0;
    while i < n
        invariant
            n == events.len(),
            i <= n,
            out@ == sorted_by_date(events@.take(i as int)),
            out@.len() == i,
        decreases n - i,
    {
        let e = events[i].clone();
        let mut pos: usize = out.len();
        while pos > 0 && out[pos - 1].scheduled_date > e.scheduled_date
            invariant
                pos <= out.len(),
                forall|j: int|
                    pos <= j < out@.len() ==> (#[trigger] out@[j]).scheduled_date
                        > e.scheduled_date,
            decreases pos,
        {
            pos -= 1;
        }
        proof {
            lemma_insert_position_found(out@, e.scheduled_date as int, pos as int);
            let next = events@.take(i + 1);
            assert(next.drop_last() =~= events@.take(i as int));
            assert(next.last() == e);
        }
        out.insert(pos, e);
        i += 1;
    }
    proof {
        assert(events@.take(n as int) =~= events@);
        law_sorted_by_date(events@);
    }
    out
}

/// `p` is the position of the first event of `s` with identifier `id`.
pub open spec fn is_first_with_id(s: Seq<ScheduledEvent>, id: u128, p: int) -> bool {
    &&& 0 <= p < s.len()
    &&& s[p].uuid == id
    &&& forall|j: int| 0 <= j < p ==> (#[trigger] s[j]).uuid != id
}

/// Some event of `s` has identifier `id`.
pub open spec fn has_id(s: Seq<ScheduledEvent>, id: u128) -> bool {
    exists|j: int| 0 <= j < s.len() && (#[trigger] s[j]).uuid == id
}

/// Whether an event falls on day `day`.
pub open spec fn falls_on(day: int) -> spec_fn(ScheduledEvent) -> bool {
    |e: ScheduledEvent| day_of(e.scheduled_date as int) == day
}

/// The tabular formats of an export.
#[derive(Debug, Clone, Copy, PartialEq, Eq, Structural)]
pub enum CsvType {
    /// The comma-separated table that calendar applications import.
    GCAL,
    /// The iCalendar format, which is not written.
    ICAL,
}

/// Why an export was refused.
#[derive(Debug, Clone, Copy, PartialEq, Eq, Structural)]
pub enum ExportError {
    /// The format asked for is not written.
    UnsupportedFormat,
    /// Some event's kind and item disagree, or its moment is out of range.
    MalformedEvent,
}

/// The subject of an event's row: show, season and episode of an episode,
/// title and running time of a movie.
pub open spec fn subject_text(e: ScheduledEvent) -> Seq<char> {
    match e.media_type {
        MediaType::tv => {
            let ep = e.episode->Some_0;
            ep.show_name@ + " | s"@ + decimal(ep.season_number as nat) + "e"@ + decimal(
                ep.episode_number as nat,
            )
        },
        _ => {
            let mv = e.movie->Some_0;
            mv.show_name@ + " | Runtime: "@ + decimal(mv.runtime as nat)
        },
    }
}

/// The description of an event's row: the episode's name or the movie's
/// title.
pub open spec fn description_text(e: ScheduledEvent) -> Seq<char> {
    match e.media_type {
        MediaType::tv => e.episode->Some_0.name@,
        _ => e.movie->Some_0.show_name@,
    }
}

/// The first line of the table.
pub open spec fn gcal_header() -> Seq<char> {
    "Subject, Start Date, Start Time, End Date, End Time, All Day Event, Description, Location, Private\n"@
}

/// The row of one event: subject, start date, start time, end date (that of
/// the start), end time (start plus running time), not all day, description,
/// no location, private.
pub open spec fn gcal_row(e: ScheduledEvent) -> Seq<char> {
    let t = e.scheduled_date as int;
    subject_text(e) + ","@ + date_text(t) + ","@ + time_text(second_of_day(t)) + ","@ + date_text(
        t,
    ) + ","@ + time_text(second_of_day(t + 60 * e.runtime_minutes())) + ",FALSE,"@
        + description_text(e) + ",,TRUE\n"@
}

/// The rows of the events of `s`, in their order.
pub open spec fn gcal_rows(s: Seq<ScheduledEvent>) -> Seq<char>
    decreases s.len(),
{
    if s.len() == 0 {
        Seq::empty()
    } else {
        gcal_rows(s.drop_last()) + gcal_row(s.last())
    }
}

/// The table of the events of `s`: the header, then one row per event.
pub open spec fn gcal_table(s: Seq<ScheduledEvent>) -> Seq<char> {
    gcal_header() + gcal_rows(s)
}

/// Every event of `s` is well formed.
pub open spec fn all_well_formed(s: Seq<ScheduledEvent>) -> bool {
    forall|i: int| 0 <= i < s.len() ==> (#[trigger] s[i]).well_formed()
}

/// The running time of a well-formed event in minutes.
pub fn runtime_of(e: &ScheduledEvent) -> (m: usize)
    requires
        e.well_formed(),
    ensures
        m == e.runtime_minutes(),
{
    match &e.episode {
        Some(ep) => ep.episode_run_time,
        None => match &e.movie {
            Some(mv) => mv.runtime,
            None => 0,
        },
    }
}

/// The subject of a well-formed event.
pub fn subject_string(e: &ScheduledEvent) -> (s: String)
    requires
        e.well_formed(),
    ensures
        s@ == subject_text(*e),
{
    match &e.episode {
        Some(ep) => {
            let mut s = ep.show_name.clone();
            s.append(" | s");
            s.append(decimal_string(ep.season_number).as_str());
            s.append("e");
            s.append(decimal_string(ep.episode_number).as_str());
            s
        },
        None => match &e.movie {
            Some(mv) => {
                let mut s = mv.show_name.clone();
                s.append(" | Runtime: ");
                s.append(decimal_string(mv.runtime).as_str());
                s
            },
            None => String::new(),
        },
    }
}

/// The description of a well-formed event.
pub fn description_string(e: &ScheduledEvent) -> (s: String)
    requires
        e.well_formed(),
    ensures
        s@ == description_text(*e),
{
    match &e.episode {
        Some(ep) => ep.name.clone(),
        None => match &e.movie {
            Some(mv) => mv.show_name.clone(),
            None => String::new(),
        },
    }
}

/// The row of a well-formed event.
#[verifier::rlimit(50)]
pub fn gcal_row_string(e: &ScheduledEvent) -> (s: String)
    requires
        e.well_formed(),
    ensures
        s@ == gcal_row(*e),
{
    let t: i64 = e.scheduled_date;
    let date = date_string(t);
    let start = time_string(time_of_day(t));
    let end = time_string(time_of_day_after(t, runtime_of(e)));
    let description = description_string(e);
    let mut s = subject_string(e);
    s.append(",");
    s.append(date.as_str());
    s.append(",");
    s.append(start.as_str());
    s.append(",");
    s.append(date.as_str());
    s.append(",");
    s.append(end.as_str());
    s.append(",FALSE,");
    s.append(description.as_str());
    s.append(",,TRUE\n");
    s
}

/// The table of well-formed events, in their order.
pub fn gcal_table_string(events: &Vec<ScheduledEvent>) -> (s: String)
    requires
        all_well_formed(events@),
    ensures
        s@ == gcal_table(events@),
{
    let n: usize = events.len();
    let mut s = String::from_str(
        "Subject, Start Date, Start Time, End Date, End Time, All Day Event, Description, Location, Private\n",
    );
    let mut i: usize = 0;
    while i < n
        invariant
            n == events.len(),
            i <= n,
            all_well_formed(events@),
            s@ == gcal_header() + gcal_rows(events@.take(i as int)),
        decreases n - i,
    {
        let row = gcal_row_string(&events[i]);
        proof {
            let next = events@.take(i + 1);
            assert(next.drop_last() =~= events@.take(i as int));
            assert(next.last() == events@[i as int]);
            assert(gcal_header() + gcal_rows(next) =~= gcal_header() + gcal_rows(
                events@.take(i as int),
            ) + row@);
        }
        s.append(row.as_str());
        i += 1;
    }
    proof {
        assert(events@.take(n as int) =~= events@);
    }
    s
}

/// Whether every event is well formed.
pub fn check_well_formed(events: &Vec<ScheduledEvent>) -> (b: bool)
    ensures
        b == all_well_formed(events@),
{
    let n: usize = events.len();
    let mut i: usize = 0;
    while i < n
        invariant
            n == events.len(),
            i <= n,
            forall|j: int| 0 <= j < i ==> (#[trigger] events@[j]).well_formed(),
        decreases n - i,
    {
        if !events[i].is_well_formed() {
            return false;
        }
        i += 1;
    }
    true
}

/// Sorting well-formed events leaves them well formed.
pub proof fn lemma_sorted_well_formed(s: Seq<ScheduledEvent>)
    requires
        all_well_formed(s),
    ensures
        all_well_formed(sorted_by_date(s)),
{
    let r = sorted_by_date(s);
    law_sorted_by_date(s);
    assert forall|i: int| 0 <= i < r.len() implies (#[trigger] r[i]).well_formed() by {
        to_multiset_contains(r, r[i]);
        to_multiset_contains(s, r[i]);
        assert(r.contains(r[i]));
        let j = choose|j: int| 0 <= j < s.len() && s[j] == r[i];
        assert(s[j].well_formed());
    }
}

/// The scheduled events as they are held in memory between a load and the
/// write that follows each change.
pub struct EventManager {
    /// The key under which the collection is stored.
    pub storage: String,
    /// The collection, rewritten as a whole on every change.
    pub events: Vec<ScheduledEvent>,
}

impl EventManager {
    /// The store over what was loaded; a missing or unreadable collection
    /// counts as empty.
    pub fn create(loaded: Option<Vec<ScheduledEvent>>) -> (m: Self)
        ensures
            m.storage@ == ByngerStore::ScheduledEvents.key_text(),
            m.events@ == (match loaded {
                Some(events) => events@,
                None => Seq::empty(),
            }),
    {
        let events = match loaded {
            Some(events) => events,
            None => Vec::new(),
        };
        EventManager { storage: ByngerStore::ScheduledEvents.key(), events }
    }

    /// The position of the first event with identifier `id`.
    pub fn position_of(&self, id: u128) -> (r: Option<usize>)
        ensures
            match r {
                Some(p) => is_first_with_id(self.events@, id, p as int),
                None => !has_id(self.events@, id),
            },
    {
        let n: usize = self.events.len();
        let mut i: usize = 0;
        while i < n
            invariant
                n == self.events.len(),
                i <= n,
                forall|j: int| 0 <= j < i ==> (#[trigger] self.events@[j]).uuid != id,
            decreases n - i,
        {
            if self.events[i].uuid == id {
                return Some(i);
            }
            i += 1;
        }
        None
    }

    /// Empties the collection.
    pub fn purge_events(&mut self)
        ensures
            final(self).events@ == Seq::<ScheduledEvent>::empty(),
            final(self).storage == old(self).storage,
    {
        self.events.clear();
    }

    /// Appends `events` and orders the whole collection by ascending date;
    /// events of one date keep the order in which they stood.
    pub fn add_events(&mut self, events: Vec<ScheduledEvent>)
        ensures
            final(self).events@ == sorted_by_date(old(self).events@ + events@),
            ordered_by_date(final(self).events@),
            final(self).events@.to_multiset() == old(self).events@.to_multiset().add(
                events@.to_multiset(),
            ),
            final(self).storage == old(self).storage,
    {
        let mut added = events;
        self.events.append(&mut added);
        let sorted = sort_by_date(&self.events);
        proof {
            lemma_multiset_commutative(old(self).events@, events@);
        }
        self.events = sorted;
    }

    /// Removes the first event with identifier `id`; without such an event
    /// nothing changes. Returns whether an event was removed.
    pub fn remove(&mut self, id: u128) -> (found: bool)
        ensures
            found == has_id(old(self).events@, id),
            !found ==> final(self).events@ == old(self).events@,
            forall|p: int|
                is_first_with_id(old(self).events@, id, p) ==> final(self).events@ == old(
                    self,
                ).events@.remove(p),
            final(self).storage == old(self).storage,
    {
        match self.position_of(id) {
            Some(p) => {
                let _ = self.events.remove(p);
                true
            },
            None => false,
        }
    }

    /// Marks the first event with identifier `id` as watched; without such
    /// an event nothing changes. Returns whether an event was found.
    pub fn set_watched(&mut self, id: u128) -> (found: bool)
        ensures
            found == has_id(old(self).events@, id),
            !found ==> final(self).events@ == old(self).events@,
            forall|p: int|
                is_first_with_id(old(self).events@, id, p) ==> final(self).events@ == old(
                    self,
                ).events@.update(p, (ScheduledEvent { watched: true, ..old(self).events@[p] })),
            final(self).storage == old(self).storage,
    {
        match self.position_of(id) {
            Some(p) => {
                let mut e = self.events[p].clone();
                e.watched = true;
                self.events[p] = e;
                true
            },
            None => false,
        }
    }

    /// Moves the first event with identifier `id` to the moment
    /// `scheduled_date`, leaving the order of the collection as it is;
    /// without such an event nothing changes. Returns whether an event was
    /// found.
    pub fn reschedule(&mut self, id: u128, scheduled_date: i64) -> (found: bool)
        ensures
            found == has_id(old(self).events@, id),
            !found ==> final(self).events@ == old(self).events@,
            forall|p: int|
                is_first_with_id(old(self).events@, id, p) ==> final(self).events@ == old(
                    self,
                ).events@.update(p, (ScheduledEvent { scheduled_date, ..old(self).events@[p] })),
            final(self).storage == old(self).storage,
    {
        match self.position_of(id) {
            Some(p) => {
                let mut e = self.events[p].clone();
                e.scheduled_date = scheduled_date;
                self.events[p] = e;
                true
            },
            None => false,
        }
    }

    /// The events that fall on day `day`, in the order of the collection.
    pub fn events_on_day(&self, day: i64) -> (r: Vec<ScheduledEvent>)
        ensures
            r@ == self.events@.filter(falls_on(day as int)),
    {
        let n: usize = self.events.len();
        let mut out: Vec<ScheduledEvent> = Vec::new();
        let mut i: usize = 0;
        while i < n
            invariant
                n == self.events.len(),
                i <= n,
                out@ == self.events@.take(i as int).filter(falls_on(day as int)),
            decreases n - i,
        {
            proof {
                let seen = self.events@.take(i as int);
                seen.lemma_filter_push(self.events@[i as int], falls_on(day as int));
                assert(seen.push(self.events@[i as int]) =~= self.events@.take(i + 1));
            }
            if day_number(self.events[i].scheduled_date) == day {
                out.push(self.events[i].clone());
            }
            i += 1;
        }
        proof {
            assert(self.events@.take(n as int) =~= self.events@);
        }
        out
    }

    /// Renders the collection as a table for import into a calendar.
    ///
    /// Only the comma-separated format is written; any other is refused.
    /// An event whose kind and item disagree, or whose moment is out of
    /// range, makes the whole export fail. Otherwise the collection is put
    /// in ascending order of date and rendered, header first, one row per
    /// event. A refused export leaves the collection as it was.
    pub fn events_as_csv(&mut self, csv_type: CsvType) -> (r: Result<String, ExportError>)
        ensures
            final(self).storage == old(self).storage,
            match r {
                Ok(text) => {
                    &&& csv_type == CsvType::GCAL
                    &&& all_well_formed(old(self).events@)
                    &&& final(self).events@ == sorted_by_date(old(self).events@)
                    &&& text@ == gcal_table(sorted_by_date(old(self).events@))
                },
                Err(ExportError::UnsupportedFormat) => {
                    &&& csv_type == CsvType::ICAL
                    &&& final(self).events@ == old(self).events@
                },
                Err(ExportError::MalformedEvent) => {
                    &&& csv_type == CsvType::GCAL
                    &&& !all_well_formed(old(self).events@)
                    &&& final(self).events@ == old(self).events@
                },
            },
    {
        match csv_type {
            CsvType::ICAL => Err(ExportError::UnsupportedFormat),
            CsvType::GCAL => {
                if !check_well_formed(&self.events) {
                    return Err(ExportError::MalformedEvent);
                }
                let sorted = sort_by_date(&self.events);
                proof {
                    lemma_sorted_well_formed(self.events@);
                }
                let text = gcal_table_string(&sorted);
                self.events = sorted;
                Ok(text)
            },
        }
    }
}

} // verus!
