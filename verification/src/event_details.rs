//! What the calendar shows of one event once the catalog has answered.

use vstd::prelude::*;
use vstd::string::StringExecFns;
use crate::schedule_show::Episode;
use crate::search_client::{TMDBEpisodeObj, TMDBMovieObj, TMDB};
use crate::text::{decimal, decimal_string};

verus! {

/// The details of an event.
#[derive(Debug, Clone, PartialEq, Eq)]
pub struct Details {
    pub image: String,
    pub title: String,
    pub subtitle: String,
    pub overview: String,
    pub air_date: String,
    pub runtime: usize,
    pub rating: String,
}

/// The address of a picture, or the empty text where there is none.
pub open spec fn image_text(path: Option<String>) -> Seq<char> {
    match path {
        Some(p) => TMDB::poster_base() + p@,
        None => Seq::empty(),
    }
}

/// The address of a picture, or the empty text where there is none.
pub fn image_string(path: &Option<String>) -> (s: String)
    ensures
        s@ == image_text(*path),
{
    match path {
        Some(p) => {
            let mut s = String::from_str("https://image.tmdb.org/t/p/w500/");
            s.append(p.as_str());
            s
        },
        None => String::new(),
    }
}

/// Whether `d` holds the details of the scheduled episode `ep` as the
/// catalog's record `e` gives them.
pub open spec fn is_episode_details(d: Details, ep: Episode, e: TMDBEpisodeObj) -> bool {
    &&& d.image@ == image_text(e.still_path)
    &&& d.title@ == e.name@
    &&& d.subtitle@ == ep.show_name@ + " | Season: "@ + decimal(e.season_number as nat)
        + " Episode: "@ + decimal(e.episode_number as nat)
    &&& e.overview matches Some(o) && d.overview@ == o@
    &&& e.air_date matches Some(a) && d.air_date@ == a@
    &&& e.runtime == Some(d.runtime)
    &&& d.rating@ == Seq::<char>::empty()
}

/// Whether `d` holds the details of a movie as the catalog's record `m`
/// gives them.
pub open spec fn is_movie_details(d: Details, m: TMDBMovieObj) -> bool {
    &&& d.image@ == image_text(m.poster_path)
    &&& m.title matches Some(t) && d.title@ == t@
    &&& m.release_date matches Some(r) && m.runtime matches Some(n) && d.subtitle@
        == "Released: "@ + r@ + " - Runtime: "@ + decimal(n as nat)
    &&& m.overview matches Some(o) && d.overview@ == o@
    &&& d.air_date@ == Seq::<char>::empty()
    &&& m.runtime == Some(d.runtime)
    &&& d.rating@ == Seq::<char>::empty()
}

/// The details of a scheduled episode, or `None` where the catalog's record
/// lacks overview, air date or running time.
pub fn episode_details(ep: &Episode, e: &TMDBEpisodeObj) -> (r: Option<Details>)
    ensures
        r is Some == (e.overview is Some && e.air_date is Some && e.runtime is Some),
        r matches Some(d) ==> is_episode_details(d, *ep, *e),
{
    match (&e.overview, &e.air_date, e.runtime) {
        (Some(overview), Some(air_date), Some(runtime)) => {
            let mut subtitle = ep.show_name.clone();
            subtitle.append(" | Season: ");
            subtitle.append(decimal_string(e.season_number).as_str());
            subtitle.append(" Episode: ");
            subtitle.append(decimal_string(e.episode_number).as_str());
            Some(
                Details {
                    image: image_string(&e.still_path),
                    title: e.name.clone(),
                    subtitle,
                    overview: overview.clone(),
                    air_date: air_date.clone(),
                    runtime,
                    rating: String::new(),
                },
            )
        },
        _ => None,
    }
}

/// The details of a scheduled movie, or `None` where the catalog's record
/// lacks title, release date, running time or overview.
pub fn movie_details(m: &TMDBMovieObj) -> (r: Option<Details>)
    ensures
        r is Some == (m.title is Some && m.release_date is Some && m.runtime is Some
            && m.overview is Some),
        r matches Some(d) ==> is_movie_details(d, *m),
{
    match (&m.title, &m.release_date, m.runtime, &m.overview) {
        (Some(title), Some(release_date), Some(runtime), Some(overview)) => {
            let mut subtitle = String::from_str("Released: ");
            subtitle.append(release_date.as_str());
            subtitle.append(" - Runtime: ");
            subtitle.append(decimal_string(runtime).as_str());
            Some(
                Details {
                    image: image_string(&m.poster_path),
                    title: title.clone(),
                    subtitle,
                    overview: overview.clone(),
                    air_date: String::new(),
                    runtime,
                    rating: String::new(),
                },
            )
        },
        _ => None,
    }
}

} // verus!
