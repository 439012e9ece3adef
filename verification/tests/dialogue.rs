use bynger::episodes_picker::EpisodePickerTab;
use bynger::find_show::{request_for, FindShow, FindShowModalState, ShowRequest};
use bynger::search_client::{MediaType, SearchResponse, SearchResult};
use bynger::show_card::Show;
use bynger::site_config::Route;

fn hit(id: &str, media_type: MediaType) -> SearchResult {
    SearchResult {
        id: String::from(id),
        title: format!("title {}", id),
        media_type,
        year: String::from("2001"),
    }
}

fn page(page: usize, results: Vec<SearchResult>) -> SearchResponse {
    SearchResponse { page, results, total_pages: 4, total_results: 70 }
}

fn show(id: &str, media_type: MediaType, title: &str) -> Show {
    Show {
        id: String::from(id),
        title: Some(String::from(title)),
        original_title: None,
        first_air_date: None,
        poster: None,
        media_type,
        episode_run_time: None,
        last_air_date: None,
        number_of_episodes: None,
        number_of_seasons: None,
        overview: None,
        tagline: None,
        in_production: false,
    }
}

#[test]
fn the_dialogue_opens_and_closes() {
    let mut d = FindShow::create();
    assert_eq!(d.modal_state, FindShowModalState::Closed);
    assert_eq!(FindShowModalState::default(), FindShowModalState::Closed);
    assert_eq!((d.current_page, d.max_page), (Some(1), Some(1)));
    d.click();
    assert_eq!(d.modal_state, FindShowModalState::Searching);
    d.input_change(String::from("office"));
    assert_eq!(d.search_value, "office");
    let wanted = d.search_complete(page(2, vec![hit("1", MediaType::tv)]));
    assert_eq!(wanted, vec![(String::from("1"), MediaType::tv)]);
    assert_eq!((d.current_page, d.max_page), (Some(2), Some(4)));
    d.show_result(show("1", MediaType::tv, "The Office"));
    d.show_selected(String::from("1"), MediaType::tv);
    assert_eq!(d.modal_state, FindShowModalState::Scheduling);
    assert_eq!(d.show_selected, Some((String::from("1"), MediaType::tv)));
    d.close_modal();
    assert_eq!(d.modal_state, FindShowModalState::Closed);
    assert_eq!(d.show_selected, None);
    assert!(d.search_results.is_empty());
    assert_eq!(d.search_value, "");
    assert_eq!((d.current_page, d.max_page), (Some(1), Some(4)));
    assert_eq!(d.show_cache.len(), 1);
}

#[test]
fn typing_forgets_the_results() {
    let mut d = FindShow::create();
    d.search_complete(page(3, vec![hit("1", MediaType::tv)]));
    d.input_change(String::from("other"));
    assert!(d.search_results.is_empty());
    assert_eq!(d.current_page, Some(1));
    assert_eq!(d.max_page, Some(4));
}

#[test]
fn only_uncached_hits_are_asked_for() {
    let mut d = FindShow::create();
    d.show_result(show("7", MediaType::movie, "seven"));
    let found = page(
        1,
        vec![
            hit("7", MediaType::tv),
            hit("7", MediaType::movie),
            hit("8", MediaType::movie),
            hit("8", MediaType::movie),
        ],
    );
    let wanted = d.search_complete(found.clone());
    assert_eq!(
        wanted,
        vec![
            (String::from("7"), MediaType::tv),
            (String::from("8"), MediaType::movie),
            (String::from("8"), MediaType::movie),
        ]
    );
    assert_eq!(d.search_results, vec![found]);
}

#[test]
fn a_page_is_kept_once() {
    let mut d = FindShow::create();
    d.search_complete(page(1, vec![hit("1", MediaType::tv)]));
    d.search_complete(page(2, vec![hit("2", MediaType::tv)]));
    d.search_complete(page(1, vec![hit("3", MediaType::tv)]));
    assert_eq!(
        d.search_results,
        vec![page(1, vec![hit("3", MediaType::tv)]), page(2, vec![hit("2", MediaType::tv)])]
    );
    assert_eq!(d.page_at(2), Some(1));
    assert_eq!(d.page_at(3), None);
    assert!(!d.page_request(2));
    assert_eq!(d.current_page, Some(2));
    assert!(d.page_request(3));
    assert_eq!(d.current_page, Some(3));
    assert_eq!(d.search_results.len(), 2);
}

#[test]
fn a_show_is_cached_once() {
    let mut d = FindShow::create();
    d.show_result(show("1", MediaType::tv, "first"));
    d.show_result(show("1", MediaType::movie, "a movie"));
    d.show_result(show("1", MediaType::tv, "again"));
    assert_eq!(
        d.show_cache,
        vec![show("1", MediaType::tv, "again"), show("1", MediaType::movie, "a movie")]
    );
    assert_eq!(d.cached_at(&String::from("1"), MediaType::movie), Some(1));
    assert_eq!(d.cached_at(&String::from("2"), MediaType::movie), None);
}

#[test]
fn what_the_catalog_is_asked() {
    assert_eq!(request_for(MediaType::tv), ShowRequest::Tv);
    assert_eq!(request_for(MediaType::movie), ShowRequest::Movie);
    assert_eq!(request_for(MediaType::actor), ShowRequest::Nothing);
    assert_eq!(request_for(MediaType::person), ShowRequest::Nothing);
    assert_eq!(request_for(MediaType::unknown), ShowRequest::Nothing);
}

#[test]
fn tabs_by_identifier() {
    assert_eq!(EpisodePickerTab::of_identifier("season_7_tab_all"), Some(EpisodePickerTab::All));
    assert_eq!(
        EpisodePickerTab::of_identifier("season_7_tab_Some"),
        Some(EpisodePickerTab::SomeEpisodes)
    );
    assert_eq!(EpisodePickerTab::of_identifier("NONE"), Some(EpisodePickerTab::NoEpisodes));
    assert_eq!(EpisodePickerTab::of_identifier("season_7_tab"), None);
    assert_eq!(EpisodePickerTab::of_identifier("all_"), None);
    assert_eq!(EpisodePickerTab::from_uppercase(&String::from("all")), None);
    let shown = EpisodePickerTab::SomeEpisodes;
    assert_eq!(shown.after_click("season_1_tab_none"), EpisodePickerTab::NoEpisodes);
    assert_eq!(shown.after_click("season_1_poster"), EpisodePickerTab::SomeEpisodes);
}

#[test]
fn without_a_credential_every_page_is_the_configuration() {
    let key = Some(String::from("KEY"));
    for route in [Route::Home, Route::Schedule, Route::Config] {
        assert_eq!(route.switch(&key), route);
        assert_eq!(route.switch(&None), Route::Config);
        assert_eq!(route.switch(&Some(String::new())), Route::Config);
    }
}
