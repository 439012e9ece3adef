//! A show or movie as the scheduler presents it.

use vstd::prelude::*;
use vstd::string::StringExecFns;
use crate::schedule_show::Movie;
use crate::search_client::{MediaType, TMDBMovieObj, TMDBTVObj, TMDB};
use crate::text::{decimal, decimal_string, parse_number, number_read};

verus! {

/// A show, or a movie dressed as one.
#[derive(Debug, Clone, PartialEq, Eq)]
pub struct Show {
    pub id: String,
    pub title: Option<String>,
    pub original_title: Option<String>,
    pub first_air_date: Option<String>,
    pub poster: Option<String>,
    pub media_type: MediaType,
    pub episode_run_time: Option<Vec<usize>>,
    pub last_air_date: Option<String>,
    pub number_of_episodes: Option<usize>,
    pub number_of_seasons: Option<usize>,
    pub overview: Option<String>,
    pub tagline: Option<String>,
    pub in_production: bool,
}

/// The picture of an entry: its poster, else its backdrop.
pub open spec fn picture(poster: Option<String>, backdrop: Option<String>) -> Option<String> {
    match poster {
        Some(p) => Some(p),
        None => backdrop,
    }
}

/// Whether `address` is the address of picture `path`, where there is one.
pub open spec fn is_poster_of(address: Option<String>, path: Option<String>) -> bool {
    &&& address is Some == path is Some
    &&& path matches Some(p) ==> address->Some_0@ == TMDB::poster_base() + p@
}

/// The picture of an entry: its poster, else its backdrop.
pub fn choose_picture(poster: Option<String>, backdrop: Option<String>) -> (r: Option<String>)
    ensures
        r == picture(poster, backdrop),
{
    match poster {
        Some(p) => Some(p),
        None => backdrop,
    }
}

impl Show {
    /// The show that the catalog's record `t` describes.
    pub fn from_tv(t: TMDBTVObj) -> (s: Self)
        ensures
            s.id@ == decimal(t.id as nat),
            s.title == t.name,
            s.original_title == t.original_name,
            s.first_air_date == t.first_air_date,
            is_poster_of(s.poster, picture(t.poster_path, t.backdrop_path)),
            s.media_type == MediaType::tv,
            s.episode_run_time == Some(t.episode_run_time),
            s.last_air_date == t.last_air_date,
            s.number_of_episodes == Some(t.number_of_episodes),
            s.number_of_seasons == Some(t.number_of_seasons),
            s.overview == t.overview,
            s.tagline == t.tagline,
            s.in_production == t.in_production,
    {
        Show {
            id: decimal_string(t.id),
            title: t.name,
            original_title: t.original_name,
            first_air_date: t.first_air_date,
            poster: TMDB::poster_path(choose_picture(t.poster_path, t.backdrop_path)),
            media_type: MediaType::tv,
            episode_run_time: Some(t.episode_run_time),
            last_air_date: t.last_air_date,
            number_of_episodes: Some(t.number_of_episodes),
            number_of_seasons: Some(t.number_of_seasons),
            overview: t.overview,
            tagline: t.tagline,
            in_production: t.in_production,
        }
    }

    /// The show that stands for the movie `m`: its one running time is the
    /// movie's, or 0 where the catalog gives none.
    pub fn from_movie(m: TMDBMovieObj) -> (s: Self)
        ensures
            s.id@ == decimal(m.id as nat),
            s.title == m.title,
            s.original_title == m.original_title,
            s.first_air_date == m.release_date,
            is_poster_of(s.poster, picture(m.poster_path, m.backdrop_path)),
            s.media_type == MediaType::movie,
            s.episode_run_time is Some,
            s.episode_run_time->Some_0@ == seq![
                match m.runtime {
                    Some(r) => r,
                    None => 0usize,
                },
            ],
            s.last_air_date is None,
            s.number_of_episodes is None,
            s.number_of_seasons is None,
            s.overview == m.overview,
            s.tagline == m.tagline,
            !s.in_production,
    {
        let runtime: usize = match m.runtime {
            Some(r) => r,
            None => 0,
        };
        let mut run_times: Vec<usize> = Vec::new();
        run_times.push(runtime);
        Show {
            id: decimal_string(m.id),
            title: m.title,
            original_title: m.original_title,
            first_air_date: m.release_date,
            poster: TMDB::poster_path(choose_picture(m.poster_path, m.backdrop_path)),
            media_type: MediaType::movie,
            episode_run_time: Some(run_times),
            last_air_date: None,
            number_of_episodes: None,
            number_of_seasons: None,
            overview: m.overview,
            tagline: m.tagline,
            in_production: false,
        }
    }

    /// Whether `movie` is the movie to schedule for this show: its release
    /// date and title, or the words that stand for a missing one, the
    /// entry's number `movie_id` and its first running time.
    pub open spec fn is_movie_of(&self, movie: Movie, movie_id: usize) -> bool {
        &&& movie.release_date@ == (match self.first_air_date {
            Some(d) => d@,
            None => "Unknown Release Date"@,
        })
        &&& movie.show_name@ == (match self.title {
            Some(t) => t@,
            None => "Unknown Movie Title"@,
        })
        &&& movie.id == 0
        &&& movie.movie_id == movie_id
        &&& movie.runtime == (match self.episode_run_time {
            Some(times) => if times@.len() > 0 {
                times@[0]
            } else {
                0usize
            },
            None => 0usize,
        })
    }

    /// The movie to schedule for this show, or `None` where the show's
    /// identifier is no number.
    pub fn to_movie(&self) -> (r: Option<Movie>)
        ensures
            r is Some == number_read(self.id@) is Some,
            r matches Some(movie) ==> self.is_movie_of(movie, number_read(self.id@)->Some_0),
    {
        let movie_id: usize = match parse_number(self.id.as_str()) {
            Some(n) => n,
            None => {
                return None;
            },
        };
        let release_date = match &self.first_air_date {
            Some(d) => d.clone(),
            None => String::from_str("Unknown Release Date"),
        };
        let show_name = match &self.title {
            Some(t) => t.clone(),
            None => String::from_str("Unknown Movie Title"),
        };
        let runtime: usize = match &self.episode_run_time {
            Some(times) => if times.len() > 0 {
                times[0]
            } else {
                0
            },
            None => 0,
        };
        Some(Movie { release_date, show_name, id: 0, movie_id, runtime })
    }
}

} // verus!
