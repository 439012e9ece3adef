//! The keys under which the calendar keeps its state.

use vstd::prelude::*;
use vstd::string::{StrSliceExecFns, StringExecFns};

verus! {

/// What the calendar keeps in durable storage.
#[derive(Debug, Clone, Copy, PartialEq, Eq, Structural)]
pub enum ByngerStore {
    /// The credential of the media catalog.
    TmdbApiKey,
    /// The whole ordered collection of scheduled events.
    ScheduledEvents,
}

impl ByngerStore {
    /// The key of the entry, as text.
    pub open spec fn key_text(self) -> Seq<char> {
        match self {
            ByngerStore::TmdbApiKey => "BYNGER_TMDB_API_KEY"@,
            ByngerStore::ScheduledEvents => "BYNGER_SCHEDULED_EVENTS"@,
        }
    }

    /// The key under which the entry is stored.
    pub fn key(&self) -> (k: String)
        ensures
            k@ == self.key_text(),
    {
        match self {
            ByngerStore::TmdbApiKey => String::from_str("BYNGER_TMDB_API_KEY"),
            ByngerStore::ScheduledEvents => String::from_str("BYNGER_SCHEDULED_EVENTS"),
        }
    }
}

/// The pages of the calendar.
#[derive(Debug, Clone, Copy, PartialEq, Eq, Structural)]
pub enum Route {
    /// The calendar with its events.
    Home,
    /// The search for a show to schedule.
    Schedule,
    /// The credential of the catalog.
    Config,
}

impl Route {
    /// The page that is shown for a request: without a credential, or with
    /// an empty one, every request leads to the page of the credential.
    pub open spec fn shown(self, api_key: Option<Seq<char>>) -> Route {
        match api_key {
            Some(key) => if key.len() == 0 {
                Route::Config
            } else {
                self
            },
            None => Route::Config,
        }
    }

    /// The page that is shown for a request.
    pub fn switch(self, api_key: &Option<String>) -> (r: Route)
        ensures
            r == self.shown(
                match *api_key {
                    Some(key) => Some(key@),
                    None => None,
                },
            ),
    {
        match api_key {
            Some(key) => {
                if key.as_str().unicode_len() == 0 {
                    Route::Config
                } else {
                    self
                }
            },
            None => Route::Config,
        }
    }
}

} // verus!
