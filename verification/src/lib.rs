//! Scheduling engine for a watch calendar: it assigns each chosen episode or
//! movie a concrete moment, keeps the scheduled events ordered, and renders
//! them as a calendar-import table.
//!
//! Moments are whole seconds since 1970-01-01T00:00:00 UTC; days are counted
//! from the same origin.

pub mod clock;
pub mod episodes_picker;
pub mod event_calendar;
pub mod event_details;
pub mod event_manager;
pub mod events;
pub mod find_show;
pub mod schedule_laws;
pub mod schedule_show;
pub mod search_client;
pub mod show_card;
pub mod site_config;
pub mod text;
