use bynger::clock::{clock_string, day_number, moment_of_civil};
use bynger::event_calendar::{
    calendar_cells, event_label, get_calendar_cells, next_month, previous_month,
    CalendarSchedulableEvent,
};
use bynger::event_details::{episode_details, movie_details, Details};
use bynger::events::ScheduledEvent;
use bynger::schedule_show::{Episode, Movie};
use bynger::search_client::{MediaType, TMDBEpisodeObj, TMDBMovieObj};

fn the_episode() -> Episode {
    Episode {
        air_date: String::from("2005-09-20"),
        episode_number: 1,
        name: String::from("The Dundies"),
        id: 77,
        season_number: 2,
        still_path: None,
        episode_run_time: 22,
        show_name: String::from("The Office"),
        show_id: 2316,
    }
}

fn the_movie() -> Movie {
    Movie {
        release_date: String::from("1984-06-08"),
        show_name: String::from("Ghostbusters"),
        id: 0,
        movie_id: 620,
        runtime: 105,
    }
}

fn day(year: i32, month: u32, day: u32) -> i64 {
    day_number(moment_of_civil(year, month, day, 0, 0, 0).unwrap())
}

#[test]
fn the_face_of_an_episode() {
    let ep = the_episode();
    assert_eq!(ep.id(), "77");
    assert_eq!(CalendarSchedulableEvent::name(&ep), "The Dundies");
    assert_eq!(ep.media_type(), MediaType::tv);
    assert_eq!(ep.duration(), 22);
    assert_eq!(ep.description(), "// Not implemented");
}

#[test]
fn labels_of_events() {
    let at = moment_of_civil(2024, 1, 1, 16, 30, 0).unwrap();
    let tv = ScheduledEvent::for_episode(1, at, the_episode());
    assert_eq!(
        event_label(&tv),
        Some((String::from(" 16:30 | The Office - The Dundies"), String::from("gg-tv")))
    );
    let movie = ScheduledEvent::for_movie(2, at + 7 * 3600 + 1740, the_movie());
    assert_eq!(
        event_label(&movie),
        Some((String::from(" 23:59 | Ghostbusters"), String::from("gg-film")))
    );
    let mut other = ScheduledEvent::for_movie(3, at, the_movie());
    other.media_type = MediaType::person;
    assert_eq!(
        event_label(&other),
        Some((String::from("Unknown Person"), String::from("gg-boy")))
    );
    other.media_type = MediaType::actor;
    assert_eq!(event_label(&other).unwrap().0, "Unknown Actor");
    other.media_type = MediaType::unknown;
    assert_eq!(
        event_label(&other),
        Some((String::from("Unknown"), String::from("gg-danger")))
    );
    other.media_type = MediaType::tv;
    assert_eq!(event_label(&other), None);
    assert_eq!(clock_string(0), "00:00");
    assert_eq!(clock_string(86_399), "23:59");
}

#[test]
fn cells_of_a_month() {
    // January 2024 begins on a Monday, so no cell stands before its first day.
    let january = get_calendar_cells(moment_of_civil(2024, 1, 17, 12, 0, 0).unwrap()).unwrap();
    assert_eq!(january.len(), 35);
    assert_eq!(january[0], Some(day(2024, 1, 1)));
    assert_eq!(january[30], Some(day(2024, 1, 31)));
    assert!(january[31..].iter().all(|c| c.is_none()));
    // September 2024 begins on a Sunday and needs six rows.
    let september = get_calendar_cells(moment_of_civil(2024, 9, 1, 0, 0, 0).unwrap()).unwrap();
    assert_eq!(september.len(), 42);
    assert!(september[..6].iter().all(|c| c.is_none()));
    assert_eq!(september[6], Some(day(2024, 9, 1)));
    assert_eq!(september[35], Some(day(2024, 9, 30)));
    assert!(september[36..].iter().all(|c| c.is_none()));
    // February of a leap year, and December, which has no next month in its year.
    let february = get_calendar_cells(moment_of_civil(2024, 2, 29, 23, 0, 0).unwrap()).unwrap();
    assert_eq!(february.iter().filter(|c| c.is_some()).count(), 29);
    let december = get_calendar_cells(moment_of_civil(2023, 12, 5, 0, 0, 0).unwrap()).unwrap();
    assert_eq!(december.iter().filter(|c| c.is_some()).count(), 31);
    assert_eq!(december[4], Some(day(2023, 12, 1)));
    // February 2027 begins on a Monday and fills exactly four rows.
    assert_eq!(calendar_cells(day(2027, 2, 1), 28).len(), 28);
    assert_eq!(calendar_cells(0, 0), vec![None; 7]);
}

#[test]
fn details_of_an_episode() {
    let record = TMDBEpisodeObj {
        air_date: Some(String::from("2005-09-20")),
        episode_number: 1,
        name: String::from("The Dundies"),
        id: 77,
        season_number: 2,
        still_path: Some(String::from("/still.jpg")),
        overview: Some(String::from("Awards night.")),
        runtime: Some(22),
    };
    assert_eq!(
        episode_details(&the_episode(), &record),
        Some(Details {
            image: String::from("https://image.tmdb.org/t/p/w500//still.jpg"),
            title: String::from("The Dundies"),
            subtitle: String::from("The Office | Season: 2 Episode: 1"),
            overview: String::from("Awards night."),
            air_date: String::from("2005-09-20"),
            runtime: 22,
            rating: String::new(),
        })
    );
    let mut bare = record.clone();
    bare.still_path = None;
    assert_eq!(episode_details(&the_episode(), &bare).unwrap().image, "");
    bare.overview = None;
    assert_eq!(episode_details(&the_episode(), &bare), None);
    let mut timeless = record;
    timeless.runtime = None;
    assert_eq!(episode_details(&the_episode(), &timeless), None);
}

#[test]
fn details_of_a_movie() {
    let record = TMDBMovieObj {
        id: 620,
        imdb_id: None,
        title: Some(String::from("Ghostbusters")),
        original_title: None,
        overview: Some(String::from("Who you gonna call?")),
        release_date: Some(String::from("1984-06-08")),
        poster_path: Some(String::from("/poster.jpg")),
        backdrop_path: None,
        tagline: None,
        runtime: Some(105),
        status: None,
    };
    assert_eq!(
        movie_details(&record),
        Some(Details {
            image: String::from("https://image.tmdb.org/t/p/w500//poster.jpg"),
            title: String::from("Ghostbusters"),
            subtitle: String::from("Released: 1984-06-08 - Runtime: 105"),
            overview: String::from("Who you gonna call?"),
            air_date: String::new(),
            runtime: 105,
            rating: String::new(),
        })
    );
    let mut untitled = record.clone();
    untitled.title = None;
    assert_eq!(movie_details(&untitled), None);
    let mut undated = record;
    undated.release_date = None;
    assert_eq!(movie_details(&undated), None);
}

#[test]
fn turning_the_months() {
    let at = |year, month, day, second| moment_of_civil(year, month, day, 0, 0, second).unwrap();
    assert_eq!(next_month(at(2024, 1, 17, 0)), Some(at(2024, 2, 1, 1)));
    assert_eq!(next_month(at(2024, 12, 31, 59)), Some(at(2025, 1, 1, 1)));
    assert_eq!(next_month(at(9999, 12, 1, 0)), None);
    assert_eq!(previous_month(at(2024, 3, 17, 0)), Some(at(2024, 2, 29, 1)));
    assert_eq!(previous_month(at(2024, 1, 1, 0)), Some(at(2023, 12, 31, 1)));
    assert_eq!(previous_month(at(1, 1, 15, 0)), None);
}
