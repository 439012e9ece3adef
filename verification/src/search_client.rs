//! Records of the media catalog, the addresses at which it is asked, and
//! what a search hands on to the scheduler.

use vstd::prelude::*;
use vstd::string::StringExecFns;
use crate::text::{decimal, decimal_string};

verus! {

/// The kind of a catalog entry, spelled as the catalog spells it.
#[allow(non_camel_case_types)]
#[derive(Debug, Clone, Copy, PartialEq, Eq, Hash, Structural)]
pub enum MediaType {
    tv,
    movie,
    actor,
    person,
    unknown,
}

impl Default for MediaType {
    fn default() -> (m: Self)
        ensures
            m == MediaType::unknown,
    {
        MediaType::unknown
    }
}

/// The lower-case form of a text as `str::to_lowercase` gives it.
pub uninterp spec fn lowercase_text(s: Seq<char>) -> Seq<char>;

/// Lower-cases a text by `str::to_lowercase`. The contract only names the
/// result.
#[verifier::external_body]
fn lowercase(s: &str) -> (r: String)
    ensures
        r@ == lowercase_text(s@),
{
    s.to_lowercase()
}

impl MediaType {
    /// The catalog's word for the kind.
    pub open spec fn name_text(self) -> Seq<char> {
        match self {
            MediaType::tv => "tv"@,
            MediaType::movie => "movie"@,
            MediaType::actor => "actor"@,
            MediaType::person => "person"@,
            MediaType::unknown => "unknown"@,
        }
    }

    /// The kind that a lower-case word names; any other word names the
    /// unknown kind.
    pub open spec fn named(word: Seq<char>) -> MediaType {
        if word == "movie"@ {
            MediaType::movie
        } else if word == "tv"@ {
            MediaType::tv
        } else if word == "actor"@ {
            MediaType::actor
        } else if word == "person"@ {
            MediaType::person
        } else {
            MediaType::unknown
        }
    }

    /// The catalog's word for the kind.
    pub fn name(&self) -> (s: String)
        ensures
            s@ == self.name_text(),
    {
        match self {
            MediaType::tv => String::from_str("tv"),
            MediaType::movie => String::from_str("movie"),
            MediaType::actor => String::from_str("actor"),
            MediaType::person => String::from_str("person"),
            MediaType::unknown => String::from_str("unknown"),
        }
    }

    /// The kind that a lower-case word names.
    pub fn from_lowercase(word: &String) -> (m: Self)
        ensures
            m == MediaType::named(word@),
    {
        if *word == String::from_str("movie") {
            MediaType::movie
        } else if *word == String::from_str("tv") {
            MediaType::tv
        } else if *word == String::from_str("actor") {
            MediaType::actor
        } else if *word == String::from_str("person") {
            MediaType::person
        } else {
            MediaType::unknown
        }
    }

    /// The kind that a word names, whatever its case.
    pub fn from_name(word: &str) -> (m: Self)
        ensures
            m == MediaType::named(lowercase_text(word@)),
    {
        let lower = lowercase(word);
        MediaType::from_lowercase(&lower)
    }
}

/// One hit of a search, as the scheduler shows it.
#[derive(Debug, Clone, PartialEq, Eq)]
pub struct SearchResult {
    pub id: String,
    pub title: String,
    pub media_type: MediaType,
    pub year: String,
}

/// The client of the media catalog: it holds the credential.
#[derive(Debug, Clone, PartialEq, Eq)]
pub struct TMDB {
    pub api_key: String,
}

/// A show as the catalog describes it.
#[derive(Debug, Clone, PartialEq, Eq)]
pub struct TMDBTVObj {
    pub id: usize,
    pub name: Option<String>,
    pub original_name: Option<String>,
    pub overview: Option<String>,
    pub first_air_date: Option<String>,
    pub last_air_date: Option<String>,
    pub number_of_seasons: usize,
    pub number_of_episodes: usize,
    pub episode_run_time: Vec<usize>,
    pub poster_path: Option<String>,
    pub backdrop_path: Option<String>,
    pub in_production: bool,
    pub tagline: Option<String>,
    pub seasons: Vec<TMDBSeasonObj>,
}

/// A movie as the catalog describes it.
#[derive(Debug, Clone, PartialEq, Eq)]
pub struct TMDBMovieObj {
    pub id: usize,
    pub imdb_id: Option<String>,
    pub title: Option<String>,
    pub original_title: Option<String>,
    pub overview: Option<String>,
    pub release_date: Option<String>,
    pub poster_path: Option<String>,
    pub backdrop_path: Option<String>,
    pub tagline: Option<String>,
    pub runtime: Option<usize>,
    pub status: Option<String>,
}

/// One hit of a search as the catalog returns it: the fields of a show and
/// those of a movie side by side.
#[derive(Debug, Clone, PartialEq, Eq)]
pub struct TMDBResult {
    pub id: usize,
    pub media_type: MediaType,
    pub genre_ids: Vec<usize>,
    pub overview: String,
    pub original_language: String,
    pub name: String,
    pub original_name: String,
    pub first_air_date: String,
    pub release_date: String,
    pub title: String,
    pub original_title: String,
}

/// One page of a search, as the scheduler shows it.
#[derive(Debug, Clone, PartialEq, Eq)]
pub struct SearchResponse {
    pub page: usize,
    pub results: Vec<SearchResult>,
    pub total_pages: usize,
    pub total_results: usize,
}

/// One page of a search as the catalog returns it.
#[derive(Debug, Clone, PartialEq, Eq)]
pub struct TMDBSearchResponse {
    pub page: usize,
    pub results: Vec<TMDBResult>,
    pub total_pages: usize,
    pub total_results: usize,
}

/// An episode as the catalog describes it.
#[derive(Debug, Clone, PartialEq, Eq)]
pub struct TMDBEpisodeObj {
    pub air_date: Option<String>,
    pub episode_number: usize,
    pub name: String,
    pub id: usize,
    pub season_number: usize,
    pub still_path: Option<String>,
    pub overview: Option<String>,
    pub runtime: Option<usize>,
}

/// A season as the catalog describes it.
#[derive(Debug, Clone, PartialEq, Eq)]
pub struct TMDBSeasonObj {
    pub air_date: Option<String>,
    pub id: usize,
    pub name: Option<String>,
    pub overview: Option<String>,
    pub poster_path: Option<String>,
    pub season_number: usize,
    pub episodes: Vec<TMDBEpisodeObj>,
}

/// Whether a hit is a show or a movie: the hits a search keeps.
pub open spec fn is_show(r: TMDBResult) -> bool {
    r.media_type == MediaType::tv || r.media_type == MediaType::movie
}

/// The hits a search keeps, as a predicate.
pub open spec fn shows() -> spec_fn(TMDBResult) -> bool {
    |r: TMDBResult| is_show(r)
}

/// Whether `shown` is what the scheduler shows of the hit `r`: the number of
/// the entry in decimal, its title as a movie, its kind and its release
/// date.
pub open spec fn describes(shown: SearchResult, r: TMDBResult) -> bool {
    &&& shown.id@ == decimal(r.id as nat)
    &&& shown.title@ == r.title@
    &&& shown.media_type == r.media_type
    &&& shown.year@ == r.release_date@
}

/// What the scheduler shows of one page of a search: the shows and movies
/// among the hits, in their order, and the page's counts.
pub fn search_response(found: &TMDBSearchResponse) -> (shown: SearchResponse)
    ensures
        shown.page == found.page,
        shown.total_pages == found.total_pages,
        shown.total_results == found.total_results,
        shown.results@.len() == found.results@.filter(shows()).len(),
        forall|i: int|
            0 <= i < shown.results@.len() ==> describes(
                #[trigger] shown.results@[i],
                found.results@.filter(shows())[i],
            ),
{
    let n: usize = found.results.len();
    let mut out: Vec<SearchResult> = Vec::new();
    let mut i: usize = 0;
    while i < n
        invariant
            n == found.results.len(),
            i <= n,
            out@.len() == found.results@.take(i as int).filter(shows()).len(),
            forall|j: int|
                0 <= j < out@.len() ==> describes(
                    #[trigger] out@[j],
                    found.results@.take(i as int).filter(shows())[j],
                ),
        decreases n - i,
    {
        let r = &found.results[i];
        proof {
            let seen = found.results@.take(i as int);
            seen.lemma_filter_push(*r, shows());
            assert(seen.push(*r) =~= found.results@.take(i + 1));
        }
        let keep = match r.media_type {
            MediaType::tv => true,
            MediaType::movie => true,
            _ => false,
        };
        if keep {
            out.push(
                SearchResult {
                    id: decimal_string(r.id),
                    title: r.title.clone(),
                    media_type: r.media_type,
                    year: r.release_date.clone(),
                },
            );
        }
        i += 1;
    }
    proof {
        assert(found.results@.take(n as int) =~= found.results@);
    }
    SearchResponse {
        page: found.page,
        results: out,
        total_pages: found.total_pages,
        total_results: found.total_results,
    }
}

impl TMDB {
    /// The address under which posters are served.
    pub open spec fn poster_base() -> Seq<char> {
        "https://image.tmdb.org/t/p/w500/"@
    }

    /// The address under which the catalog is asked.
    pub open spec fn api_base() -> Seq<char> {
        "https://api.themoviedb.org/3/"@
    }

    /// A client with the given credential.
    pub fn new(api_key: String) -> (c: Self)
        ensures
            c.api_key == api_key,
    {
        TMDB { api_key }
    }

    /// The address of a poster, where the catalog names one.
    pub fn poster_path(path: Option<String>) -> (r: Option<String>)
        ensures
            path is Some == r is Some,
            path matches Some(p) ==> r->Some_0@ == TMDB::poster_base() + p@,
    {
        match path {
            Some(p) => {
                let mut s = String::from_str("https://image.tmdb.org/t/p/w500/");
                s.append(p.as_str());
                Some(s)
            },
            None => None,
        }
    }

    /// The address of one page of a search for `title`.
    pub fn search_url(&self, title: &String, page: usize) -> (url: String)
        ensures
            url@ == TMDB::api_base() + "search/multi?api_key="@ + self.api_key@ + "&query="@
                + title@ + "&page="@ + decimal(page as nat) + "&include_adult=false"@,
    {
        let mut s = String::from_str("https://api.themoviedb.org/3/");
        s.append("search/multi?api_key=");
        s.append(self.api_key.as_str());
        s.append("&query=");
        s.append(title.as_str());
        s.append("&page=");
        s.append(decimal_string(page).as_str());
        s.append("&include_adult=false");
        s
    }

    /// The address of the movie with number `id`.
    pub fn movie_url(&self, id: &String) -> (url: String)
        ensures
            url@ == TMDB::api_base() + "movie/"@ + id@ + "?api_key="@ + self.api_key@
                + "&include_adult=false"@,
    {
        let mut s = String::from_str("https://api.themoviedb.org/3/");
        s.append("movie/");
        s.append(id.as_str());
        s.append("?api_key=");
        s.append(self.api_key.as_str());
        s.append("&include_adult=false");
        s
    }

    /// The address of the show with number `id`.
    pub fn tv_url(&self, id: &String) -> (url: String)
        ensures
            url@ == TMDB::api_base() + "tv/"@ + id@ + "?api_key="@ + self.api_key@
                + "&include_adult=false"@,
    {
        let mut s = String::from_str("https://api.themoviedb.org/3/");
        s.append("tv/");
        s.append(id.as_str());
        s.append("?api_key=");
        s.append(self.api_key.as_str());
        s.append("&include_adult=false");
        s
    }

    /// The address of season `season` of the show with number `id`.
    pub fn season_url(&self, id: &String, season: usize) -> (url: String)
        ensures
            url@ == TMDB::api_base() + "tv/"@ + id@ + "/season/"@ + decimal(season as nat)
                + "?api_key="@ + self.api_key@,
    {
        let mut s = String::from_str("https://api.themoviedb.org/3/");
        s.append("tv/");
        s.append(id.as_str());
        s.append("/season/");
        s.append(decimal_string(season).as_str());
        s.append("?api_key=");
        s.append(self.api_key.as_str());
        s
    }

    /// The address of episode `episode` of season `season` of the show with
    /// number `id`.
    pub fn episode_url(&self, id: &String, season: usize, episode: usize) -> (url: String)
        ensures
            url@ == TMDB::api_base() + "tv/"@ + id@ + "/season/"@ + decimal(season as nat)
                + "/episode/"@ + decimal(episode as nat) + "?api_key="@ + self.api_key@,
    {
        let mut s = String::from_str("https://api.themoviedb.org/3/");
        s.append("tv/");
        s.append(id.as_str());
        s.append("/season/");
        s.append(decimal_string(season).as_str());
        s.append("/episode/");
        s.append(decimal_string(episode).as_str());
        s.append("?api_key=");
        s.append(self.api_key.as_str());
        s
    }
}

} // verus!
