use bynger::schedule_show::{
    episode_from_catalog, fuzzy_runtime_max, seasons_from_catalog, Movie,
};
use bynger::search_client::{
    search_response, MediaType, SearchResult, TMDBEpisodeObj, TMDBMovieObj, TMDBResult,
    TMDBSearchResponse, TMDBSeasonObj, TMDBTVObj, TMDB,
};
use bynger::show_card::Show;

fn hit(id: usize, media_type: MediaType, title: &str, release_date: &str) -> TMDBResult {
    TMDBResult {
        id,
        media_type,
        genre_ids: vec![],
        overview: String::new(),
        original_language: String::from("en"),
        name: String::from("a name"),
        original_name: String::new(),
        first_air_date: String::new(),
        release_date: String::from(release_date),
        title: String::from(title),
        original_title: String::new(),
    }
}

fn catalog_episode(number: usize, runtime: Option<usize>, air_date: Option<&str>) -> TMDBEpisodeObj {
    TMDBEpisodeObj {
        air_date: air_date.map(String::from),
        episode_number: number,
        name: format!("Episode {}", number),
        id: 900 + number,
        season_number: 4,
        still_path: Some(format!("/still{}.jpg", number)),
        overview: None,
        runtime,
    }
}

#[test]
fn media_types_by_name() {
    assert_eq!(MediaType::from_name("movie"), MediaType::movie);
    assert_eq!(MediaType::from_name("TV"), MediaType::tv);
    assert_eq!(MediaType::from_name("Actor"), MediaType::actor);
    assert_eq!(MediaType::from_name("person"), MediaType::person);
    assert_eq!(MediaType::from_name("podcast"), MediaType::unknown);
    assert_eq!(MediaType::from_lowercase(&String::from("TV")), MediaType::unknown);
    assert_eq!(MediaType::default(), MediaType::unknown);
    for m in [MediaType::tv, MediaType::movie, MediaType::actor, MediaType::person] {
        assert_eq!(MediaType::from_name(&m.name()), m);
    }
    assert_eq!(MediaType::unknown.name(), "unknown");
}

#[test]
fn poster_addresses() {
    assert_eq!(TMDB::poster_path(None), None);
    assert_eq!(
        TMDB::poster_path(Some(String::from("/abc.jpg"))),
        Some(String::from("https://image.tmdb.org/t/p/w500//abc.jpg"))
    );
}

#[test]
fn catalog_addresses() {
    let client = TMDB::new(String::from("KEY"));
    assert_eq!(client.api_key, "KEY");
    assert_eq!(
        client.search_url(&String::from("office"), 2),
        "https://api.themoviedb.org/3/search/multi?api_key=KEY&query=office&page=2&include_adult=false"
    );
    assert_eq!(
        client.movie_url(&String::from("620")),
        "https://api.themoviedb.org/3/movie/620?api_key=KEY&include_adult=false"
    );
    assert_eq!(
        client.tv_url(&String::from("2316")),
        "https://api.themoviedb.org/3/tv/2316?api_key=KEY&include_adult=false"
    );
    assert_eq!(
        client.season_url(&String::from("2316"), 3),
        "https://api.themoviedb.org/3/tv/2316/season/3?api_key=KEY"
    );
    assert_eq!(
        client.episode_url(&String::from("2316"), 3, 14),
        "https://api.themoviedb.org/3/tv/2316/season/3/episode/14?api_key=KEY"
    );
}

#[test]
fn a_search_keeps_shows_and_movies() {
    let found = TMDBSearchResponse {
        page: 2,
        results: vec![
            hit(1, MediaType::person, "someone", ""),
            hit(620, MediaType::movie, "Ghostbusters", "1984-06-08"),
            hit(3, MediaType::unknown, "?", ""),
            hit(2316, MediaType::tv, "", ""),
            hit(4, MediaType::actor, "an actor", ""),
        ],
        total_pages: 5,
        total_results: 93,
    };
    let shown = search_response(&found);
    assert_eq!(shown.page, 2);
    assert_eq!(shown.total_pages, 5);
    assert_eq!(shown.total_results, 93);
    assert_eq!(
        shown.results,
        vec![
            SearchResult {
                id: String::from("620"),
                title: String::from("Ghostbusters"),
                media_type: MediaType::movie,
                year: String::from("1984-06-08"),
            },
            SearchResult {
                id: String::from("2316"),
                title: String::new(),
                media_type: MediaType::tv,
                year: String::new(),
            },
        ]
    );
}

#[test]
fn a_show_from_the_catalog() {
    let t = TMDBTVObj {
        id: 2316,
        name: Some(String::from("The Office")),
        original_name: None,
        overview: Some(String::from("Paper.")),
        first_air_date: Some(String::from("2005-03-24")),
        last_air_date: Some(String::from("2013-05-16")),
        number_of_seasons: 9,
        number_of_episodes: 186,
        episode_run_time: vec![22, 30],
        poster_path: None,
        backdrop_path: Some(String::from("/back.jpg")),
        in_production: false,
        tagline: None,
        seasons: vec![],
    };
    let show = Show::from_tv(t);
    assert_eq!(show.id, "2316");
    assert_eq!(show.title, Some(String::from("The Office")));
    assert_eq!(show.poster, Some(String::from("https://image.tmdb.org/t/p/w500//back.jpg")));
    assert_eq!(show.media_type, MediaType::tv);
    assert_eq!(show.episode_run_time, Some(vec![22, 30]));
    assert_eq!(show.number_of_seasons, Some(9));
    assert_eq!(show.number_of_episodes, Some(186));
    assert_eq!(show.last_air_date, Some(String::from("2013-05-16")));
}

#[test]
fn a_movie_from_the_catalog() {
    let m = TMDBMovieObj {
        id: 620,
        imdb_id: None,
        title: Some(String::from("Ghostbusters")),
        original_title: None,
        overview: None,
        release_date: Some(String::from("1984-06-08")),
        poster_path: Some(String::from("/poster.jpg")),
        backdrop_path: Some(String::from("/back.jpg")),
        tagline: None,
        runtime: Some(105),
        status: None,
    };
    let show = Show::from_movie(m);
    assert_eq!(show.id, "620");
    assert_eq!(show.poster, Some(String::from("https://image.tmdb.org/t/p/w500//poster.jpg")));
    assert_eq!(show.media_type, MediaType::movie);
    assert_eq!(show.episode_run_time, Some(vec![105]));
    assert_eq!(show.number_of_seasons, None);
    assert_eq!(
        show.to_movie(),
        Some(Movie {
            release_date: String::from("1984-06-08"),
            show_name: String::from("Ghostbusters"),
            id: 0,
            movie_id: 620,
            runtime: 105,
        })
    );
    let mut nameless = show.clone();
    nameless.title = None;
    nameless.first_air_date = None;
    nameless.episode_run_time = None;
    let movie = nameless.to_movie().unwrap();
    assert_eq!(movie.show_name, "Unknown Movie Title");
    assert_eq!(movie.release_date, "Unknown Release Date");
    assert_eq!(movie.runtime, 0);
    let mut odd = show;
    odd.id = String::from("tt0087332");
    assert_eq!(odd.to_movie(), None);
}

#[test]
fn missing_running_times_fall_back() {
    assert_eq!(fuzzy_runtime_max(&vec![]), 60);
    assert_eq!(fuzzy_runtime_max(&vec![22]), 22);
    assert_eq!(fuzzy_runtime_max(&vec![22, 45, 30]), 45);
    assert_eq!(fuzzy_runtime_max(&vec![0]), 0);
    let name = String::from("The Office");
    let own = episode_from_catalog(&catalog_episode(1, Some(25), Some("2007-09-27")), &name, 2316, 45);
    assert_eq!(own.episode_run_time, 25);
    assert_eq!(own.air_date, "2007-09-27");
    let none = episode_from_catalog(&catalog_episode(2, None, None), &name, 2316, 45);
    assert_eq!(none.episode_run_time, 45);
    assert_eq!(none.air_date, "unknown");
    assert_eq!(none.show_name, "The Office");
    assert_eq!(none.show_id, 2316);
    assert_eq!(none.still_path, Some(String::from("/still2.jpg")));
}

#[test]
fn seasons_from_the_catalog() {
    let catalog = vec![
        TMDBSeasonObj {
            air_date: Some(String::from("2007-09-27")),
            id: 40,
            name: Some(String::from("Season 4")),
            overview: None,
            poster_path: Some(String::from("/s4.jpg")),
            season_number: 4,
            episodes: vec![catalog_episode(1, Some(42), None), catalog_episode(2, None, None)],
        },
        TMDBSeasonObj {
            air_date: None,
            id: 50,
            name: None,
            overview: None,
            poster_path: None,
            season_number: 5,
            episodes: vec![],
        },
    ];
    let name = String::from("The Office");
    let seasons = seasons_from_catalog(&catalog, &name, 2316, &vec![22, 30]);
    assert_eq!(seasons.len(), 2);
    assert_eq!(seasons[0].id, 40);
    assert_eq!(seasons[0].season_number, 4);
    assert_eq!(seasons[0].poster_path, Some(String::from("/s4.jpg")));
    let episodes = seasons[0].episodes.as_ref().unwrap();
    assert_eq!(episodes.len(), 2);
    assert_eq!(episodes[0].episode_run_time, 42);
    assert_eq!(episodes[1].episode_run_time, 30);
    assert_eq!(episodes[1].name, "Episode 2");
    assert_eq!(seasons[1].episodes, Some(vec![]));
    let undeclared = seasons_from_catalog(&catalog, &name, 2316, &vec![]);
    assert_eq!(undeclared[0].episodes.as_ref().unwrap()[1].episode_run_time, 60);
}
