//! The scheduled event: one item placed at one moment.

use vstd::prelude::*;
use crate::clock::valid_moment;
use crate::schedule_show::{Episode, Movie};
use crate::search_client::MediaType;

verus! {

/// One item of the calendar.
///
/// `media_type` says which of `episode` and `movie` is populated; see
/// [`ScheduledEvent::well_formed`].
#[derive(Debug, PartialEq, Eq)]
pub struct ScheduledEvent {
    /// Identifier, drawn once when the event is made.
    pub uuid: u128,
    /// Seconds since 1970-01-01T00:00:00 UTC.
    pub scheduled_date: i64,
    pub media_type: MediaType,
    pub episode: Option<Episode>,
    pub movie: Option<Movie>,
    pub watched: bool,
}

/// A copy of an optional episode.
pub fn clone_episode(e: &Option<Episode>) -> (r: Option<Episode>)
    ensures
        r == *e,
{
    match e {
        Some(ep) => Some(ep.clone()),
        None => None,
    }
}

/// A copy of an optional movie.
pub fn clone_movie(m: &Option<Movie>) -> (r: Option<Movie>)
    ensures
        r == *m,
{
    match m {
        Some(mv) => Some(mv.clone()),
        None => None,
    }
}

impl Clone for ScheduledEvent {
    fn clone(&self) -> (r: Self)
        ensures
            r == *self,
    {
        ScheduledEvent {
            uuid: self.uuid,
            scheduled_date: self.scheduled_date,
            media_type: self.media_type,
            episode: clone_episode(&self.episode),
            movie: clone_movie(&self.movie),
            watched: self.watched,
        }
    }
}

impl ScheduledEvent {
    /// The moment lies within the years the library works with, the kind is
    /// television or movie, and exactly the matching item is populated.
    pub open spec fn well_formed(&self) -> bool {
        &&& valid_moment(self.scheduled_date as int)
        &&& match self.media_type {
            MediaType::tv => self.episode is Some && self.movie is None,
            MediaType::movie => self.movie is Some && self.episode is None,
            _ => false,
        }
    }

    /// The running time of the scheduled item in minutes.
    pub open spec fn runtime_minutes(&self) -> nat
        recommends
            self.well_formed(),
    {
        match self.media_type {
            MediaType::tv => self.episode->Some_0.episode_run_time as nat,
            _ => self.movie->Some_0.runtime as nat,
        }
    }

    /// An unwatched event for an episode.
    pub fn for_episode(uuid: u128, scheduled_date: i64, episode: Episode) -> (e: Self)
        ensures
            e == (ScheduledEvent {
                uuid,
                scheduled_date,
                media_type: MediaType::tv,
                episode: Some(episode),
                movie: None,
                watched: false,
            }),
            valid_moment(scheduled_date as int) ==> e.well_formed(),
    {
        ScheduledEvent {
            uuid,
            scheduled_date,
            media_type: MediaType::tv,
            episode: Some(episode),
            movie: None,
            watched: false,
        }
    }

    /// An unwatched event for a movie.
    pub fn for_movie(uuid: u128, scheduled_date: i64, movie: Movie) -> (e: Self)
        ensures
            e == (ScheduledEvent {
                uuid,
                scheduled_date,
                media_type: MediaType::movie,
                episode: None,
                movie: Some(movie),
                watched: false,
            }),
            valid_moment(scheduled_date as int) ==> e.well_formed(),
    {
        ScheduledEvent {
            uuid,
            scheduled_date,
            media_type: MediaType::movie,
            episode: None,
            movie: Some(movie),
            watched: false,
        }
    }

    /// Whether the kind and the populated item agree and the moment is in
    /// range.
    pub fn is_well_formed(&self) -> (b: bool)
        ensures
            b == self.well_formed(),
    {
        let in_range = crate::clock::MIN_MOMENT <= self.scheduled_date
            && self.scheduled_date <= crate::clock::MAX_MOMENT;
        let agree = match self.media_type {
            MediaType::tv => self.episode.is_some() && self.movie.is_none(),
            MediaType::movie => self.movie.is_some() && self.episode.is_none(),
            _ => false,
        };
        in_range && agree
    }
}

} // verus!
