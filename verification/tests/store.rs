use bynger::clock::{day_number, moment_of_civil};
use bynger::event_manager::{sort_by_date, EventManager};
use bynger::events::ScheduledEvent;
use bynger::schedule_show::{Episode, Movie};
use bynger::search_client::MediaType;
use bynger::site_config::ByngerStore;

fn tv_event(uuid: u128, scheduled_date: i64, number: usize) -> ScheduledEvent {
    ScheduledEvent::for_episode(
        uuid,
        scheduled_date,
        Episode {
            air_date: String::from("2005-03-24"),
            episode_number: number,
            name: format!("Episode {}", number),
            id: 500 + number,
            season_number: 2,
            still_path: Some(String::from("/still.jpg")),
            episode_run_time: 22,
            show_name: String::from("The Office"),
            show_id: 2316,
        },
    )
}

fn movie_event(uuid: u128, scheduled_date: i64) -> ScheduledEvent {
    ScheduledEvent::for_movie(
        uuid,
        scheduled_date,
        Movie {
            release_date: String::from("1984-06-08"),
            show_name: String::from("Ghostbusters"),
            id: 0,
            movie_id: 620,
            runtime: 105,
        },
    )
}

fn ids(events: &[ScheduledEvent]) -> Vec<u128> {
    events.iter().map(|e| e.uuid).collect()
}

#[test]
fn a_missing_collection_is_empty() {
    let store = EventManager::create(None);
    assert!(store.events.is_empty());
    assert_eq!(store.storage, "BYNGER_SCHEDULED_EVENTS");
    let loaded = EventManager::create(Some(vec![tv_event(1, 10, 1)]));
    assert_eq!(loaded.events, vec![tv_event(1, 10, 1)]);
}

#[test]
fn storage_keys() {
    assert_eq!(ByngerStore::TmdbApiKey.key(), "BYNGER_TMDB_API_KEY");
    assert_eq!(ByngerStore::ScheduledEvents.key(), "BYNGER_SCHEDULED_EVENTS");
}

#[test]
fn adding_orders_the_whole_collection() {
    let mut store = EventManager::create(Some(vec![tv_event(1, 300, 1), tv_event(2, 100, 2)]));
    store.add_events(vec![movie_event(3, 200), tv_event(4, 50, 4)]);
    assert_eq!(ids(&store.events), vec![4, 2, 3, 1]);
    let dates: Vec<i64> = store.events.iter().map(|e| e.scheduled_date).collect();
    assert_eq!(dates, vec![50, 100, 200, 300]);
    let reloaded = EventManager::create(Some(store.events.clone()));
    assert_eq!(reloaded.events, store.events);
}

#[test]
fn events_of_one_date_keep_their_order() {
    let mut store = EventManager::create(Some(vec![tv_event(1, 100, 1), tv_event(2, 100, 2)]));
    store.add_events(vec![tv_event(3, 100, 3), tv_event(4, 99, 4), tv_event(5, 100, 5)]);
    assert_eq!(ids(&store.events), vec![4, 1, 2, 3, 5]);
    let sorted = sort_by_date(&vec![tv_event(9, 7, 9), tv_event(8, 7, 8), tv_event(7, 6, 7)]);
    assert_eq!(ids(&sorted), vec![7, 9, 8]);
}

#[test]
fn remove_takes_one_event() {
    let mut store = EventManager::create(Some(vec![tv_event(1, 10, 1), tv_event(2, 20, 2)]));
    assert!(store.remove(1));
    assert_eq!(store.events, vec![tv_event(2, 20, 2)]);
    assert!(!store.remove(1));
    assert_eq!(store.events, vec![tv_event(2, 20, 2)]);
}

#[test]
fn set_watched_marks_one_event() {
    let mut store = EventManager::create(Some(vec![tv_event(1, 10, 1), tv_event(2, 20, 2)]));
    assert!(store.set_watched(2));
    let mut watched = tv_event(2, 20, 2);
    watched.watched = true;
    assert_eq!(store.events, vec![tv_event(1, 10, 1), watched]);
    assert!(!store.set_watched(3));
}

#[test]
fn reschedule_overwrites_the_date() {
    let mut store = EventManager::create(Some(vec![tv_event(1, 10, 1), tv_event(2, 20, 2)]));
    assert!(store.reschedule(1, 99));
    assert_eq!(store.events, vec![tv_event(1, 99, 1), tv_event(2, 20, 2)]);
    assert!(!store.reschedule(7, 5));
    assert_eq!(store.events, vec![tv_event(1, 99, 1), tv_event(2, 20, 2)]);
    assert_eq!(store.position_of(2), Some(1));
    assert_eq!(store.position_of(7), None);
}

#[test]
fn purge_empties_the_collection() {
    let mut store = EventManager::create(Some(vec![tv_event(1, 10, 1)]));
    store.purge_events();
    assert!(store.events.is_empty());
    assert_eq!(store.storage, "BYNGER_SCHEDULED_EVENTS");
}

#[test]
fn query_by_day_ignores_the_time() {
    let morning = moment_of_civil(2024, 3, 9, 7, 30, 0).unwrap();
    let night = moment_of_civil(2024, 3, 9, 23, 59, 59).unwrap();
    let next = moment_of_civil(2024, 3, 10, 0, 0, 0).unwrap();
    let store = EventManager::create(Some(vec![
        tv_event(1, night, 1),
        tv_event(2, next, 2),
        movie_event(3, morning),
    ]));
    let day = store.events_on_day(day_number(morning));
    assert_eq!(ids(&day), vec![1, 3]);
    assert_eq!(ids(&sort_by_date(&day)), vec![3, 1]);
    assert!(store.events_on_day(day_number(morning) - 1).is_empty());
    assert_eq!(day[1].media_type, MediaType::movie);
}
