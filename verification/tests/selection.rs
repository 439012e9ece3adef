use bynger::clock::parse_day;
use bynger::episodes_picker::{
    episode_of_checkbox, find_episode, find_season, number_of_field, season_of_tab,
    select_episodes,
};
use bynger::schedule_show::{
    boundaries_from_input, options_from_input, Episode, Season, SchedulingBoundaries,
    SchedulingOptions,
};
use bynger::text::field_string;

fn episode(season: usize, number: usize) -> Episode {
    Episode {
        air_date: String::from("unknown"),
        episode_number: number,
        name: format!("s{}e{}", season, number),
        id: season * 100 + number,
        season_number: season,
        still_path: None,
        episode_run_time: 30,
        show_name: String::from("A Show"),
        show_id: 1,
    }
}

fn season(number: usize, episodes: Option<Vec<usize>>) -> Season {
    Season {
        id: number,
        air_date: None,
        name: None,
        overview: None,
        poster_path: None,
        season_number: number,
        episodes: episodes.map(|numbers| numbers.into_iter().map(|n| episode(number, n)).collect()),
    }
}

fn names(episodes: &[Episode]) -> Vec<String> {
    episodes.iter().map(|e| e.name.clone()).collect()
}

#[test]
fn fields_between_underscores() {
    assert_eq!(field_string("season_07_episode_14", 0), Some(String::from("season")));
    assert_eq!(field_string("season_07_episode_14", 1), Some(String::from("07")));
    assert_eq!(field_string("season_07_episode_14", 3), Some(String::from("14")));
    assert_eq!(field_string("season_07_episode_14", 4), None);
    assert_eq!(field_string("", 0), Some(String::new()));
    assert_eq!(field_string("", 1), None);
    assert_eq!(field_string("a_", 1), Some(String::new()));
    assert_eq!(field_string("__x", 1), Some(String::new()));
    assert_eq!(field_string("__x", 2), Some(String::from("x")));
    assert_eq!(field_string("saison_é_1", 1), Some(String::from("é")));
    for text in ["season_07_episode_14", "", "_", "a__b_", "no separator"] {
        let split: Vec<&str> = text.split('_').collect();
        for k in 0..split.len() + 2 {
            assert_eq!(field_string(text, k), split.get(k).map(|f| f.to_string()));
        }
    }
}

#[test]
fn numbers_in_identifiers() {
    assert_eq!(season_of_tab("season_7_tab_all"), Some(7));
    assert_eq!(season_of_tab("season_x_tab_all"), None);
    assert_eq!(season_of_tab("season"), None);
    assert_eq!(episode_of_checkbox("season_07_episode_14"), Some((7, 14)));
    assert_eq!(episode_of_checkbox("season_07_episode"), None);
    assert_eq!(episode_of_checkbox("season_07_episode_"), None);
    assert_eq!(episode_of_checkbox("season__episode_14"), None);
    assert_eq!(number_of_field("a_b_12", 2), Some(12));
    assert_eq!(number_of_field("a_b_-12", 2), None);
}

#[test]
fn whole_seasons_then_single_episodes() {
    let seasons = vec![
        season(1, Some(vec![1, 2, 3])),
        season(2, Some(vec![1, 2])),
        season(3, None),
        season(2, Some(vec![9])),
    ];
    let chosen = select_episodes(&seasons, &vec![2, 5, 3, 1], &vec![(1, 3), (2, 9), (4, 1), (2, 2)]);
    assert_eq!(
        names(&chosen),
        vec!["s2e1", "s2e2", "s1e1", "s1e2", "s1e3", "s1e3", "s2e2"]
    );
    assert!(select_episodes(&seasons, &vec![], &vec![]).is_empty());
    assert_eq!(find_season(&seasons, 2), Some(1));
    assert_eq!(find_season(&seasons, 4), None);
    assert_eq!(find_episode(seasons[0].episodes.as_ref().unwrap(), 3), Some(2));
    assert_eq!(find_episode(seasons[0].episodes.as_ref().unwrap(), 4), None);
}

#[test]
fn a_window_from_a_form() {
    let b = boundaries_from_input("2024-01-01", "08:00", "2024-01-29", "23:00").unwrap();
    assert_eq!(
        b,
        SchedulingBoundaries {
            start_date: 19_723,
            start_time: 8 * 3600,
            end_date: 19_751,
            end_time: 23 * 3600,
        }
    );
    assert!(b.is_well_formed());
    assert_eq!(boundaries_from_input("2024-02-30", "08:00", "2024-03-01", "23:00"), None);
    assert_eq!(boundaries_from_input("2024-01-01", "8 o'clock", "2024-01-29", "23:00"), None);
    assert_eq!(boundaries_from_input("2024-01-01", "08:00", "", "23:00"), None);
    assert_eq!(boundaries_from_input("2024-01-01", "08:00", "2024-01-29", "24:00"), None);
    assert_eq!(parse_day("1970-01-01"), Some(0));
    assert_eq!(parse_day("10000-01-01"), None);
    assert_eq!(parse_day("0000-12-31"), None);
}

#[test]
fn options_from_a_form() {
    let days = [true, true, false, true, true, false, false];
    assert_eq!(
        options_from_input(days, "2", true),
        Some(SchedulingOptions { days_of_week: days, eps_per_day: 2, use_end_date: true })
    );
    assert_eq!(options_from_input(days, "two", true), None);
    assert_eq!(options_from_input(days, "", false), None);
    let open = SchedulingOptions { days_of_week: days, eps_per_day: 0, use_end_date: false };
    assert!(open.any_open_day());
    let closed = SchedulingOptions { days_of_week: [false; 7], eps_per_day: 0, use_end_date: false };
    assert!(!closed.any_open_day());
}
