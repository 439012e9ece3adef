//! The search dialogue: what it remembers between the answers of the
//! catalog and what it asks for next.

use vstd::prelude::*;
use crate::search_client::{MediaType, SearchResponse, SearchResult};
use crate::show_card::Show;

verus! {

/// Whether the dialogue is closed, searching, or scheduling a chosen show.
#[derive(Debug, Clone, Copy, PartialEq, Eq, Structural)]
pub enum FindShowModalState {
    Closed,
    Searching,
    Scheduling,
}

impl Default for FindShowModalState {
    fn default() -> (s: Self)
        ensures
            s == FindShowModalState::Closed,
    {
        FindShowModalState::Closed
    }
}

/// What is asked of the catalog for an entry.
#[derive(Debug, Clone, Copy, PartialEq, Eq, Structural)]
pub enum ShowRequest {
    /// The record of a show.
    Tv,
    /// The record of a movie.
    Movie,
    /// Nothing: the catalog describes neither actors nor persons.
    Nothing,
}

/// What is asked of the catalog for an entry of kind `kind`.
pub fn request_for(kind: MediaType) -> (r: ShowRequest)
    ensures
        r == (match kind {
            MediaType::tv => ShowRequest::Tv,
            MediaType::movie => ShowRequest::Movie,
            _ => ShowRequest::Nothing,
        }),
{
    match kind {
        MediaType::tv => ShowRequest::Tv,
        MediaType::movie => ShowRequest::Movie,
        _ => ShowRequest::Nothing,
    }
}

/// Whether `cache` holds the entry with number `id` and kind `kind`.
pub open spec fn is_cached(cache: Seq<Show>, id: Seq<char>, kind: MediaType) -> bool {
    exists|i: int| 0 <= i < cache.len() && #[trigger] is_entry(cache[i], id, kind)
}

/// Whether `show` is the entry with number `id` and kind `kind`.
pub open spec fn is_entry(show: Show, id: Seq<char>, kind: MediaType) -> bool {
    show.id@ == id && show.media_type == kind
}

/// `p` is the position of the first entry of `cache` with number `id` and
/// kind `kind`.
pub open spec fn is_first_entry(cache: Seq<Show>, id: Seq<char>, kind: MediaType, p: int) -> bool {
    &&& 0 <= p < cache.len()
    &&& is_entry(cache[p], id, kind)
    &&& forall|j: int| 0 <= j < p ==> !is_entry(#[trigger] cache[j], id, kind)
}

/// Whether `results` holds page `page`.
pub open spec fn has_page(results: Seq<SearchResponse>, page: usize) -> bool {
    exists|i: int| 0 <= i < results.len() && (#[trigger] results[i]).page == page
}

/// `p` is the position of the first of `results` that is page `page`.
pub open spec fn is_first_page(results: Seq<SearchResponse>, page: usize, p: int) -> bool {
    &&& 0 <= p < results.len()
    &&& results[p].page == page
    &&& forall|j: int| 0 <= j < p ==> (#[trigger] results[j]).page != page
}

/// The hits that `cache` does not hold, as a predicate.
pub open spec fn uncached(cache: Seq<Show>) -> spec_fn(SearchResult) -> bool {
    |r: SearchResult| !is_cached(cache, r.id@, r.media_type)
}

/// The state of the search dialogue.
pub struct FindShow {
    pub modal_state: FindShowModalState,
    /// The title that is searched for.
    pub search_value: String,
    /// The pages that the catalog has returned for the title, one per page
    /// number.
    pub search_results: Vec<SearchResponse>,
    /// The shows and movies that the catalog has described, one per number
    /// and kind.
    pub show_cache: Vec<Show>,
    pub current_page: Option<usize>,
    pub max_page: Option<usize>,
    /// Number and kind of the entry that is being scheduled.
    pub show_selected: Option<(String, MediaType)>,
}

impl FindShow {
    /// The closed dialogue: nothing searched, nothing cached, page one of
    /// one.
    pub fn create() -> (d: Self)
        ensures
            d.modal_state == FindShowModalState::Closed,
            d.search_value@ == Seq::<char>::empty(),
            d.search_results@ == Seq::<SearchResponse>::empty(),
            d.show_cache@ == Seq::<Show>::empty(),
            d.current_page == Some(1usize),
            d.max_page == Some(1usize),
            d.show_selected is None,
    {
        FindShow {
            modal_state: FindShowModalState::Closed,
            search_value: String::new(),
            search_results: Vec::new(),
            show_cache: Vec::new(),
            current_page: Some(1),
            max_page: Some(1),
            show_selected: None,
        }
    }

    /// The position of the first cached entry with number `id` and kind
    /// `kind`.
    pub fn cached_at(&self, id: &String, kind: MediaType) -> (r: Option<usize>)
        ensures
            match r {
                Some(p) => is_first_entry(self.show_cache@, id@, kind, p as int),
                None => !is_cached(self.show_cache@, id@, kind),
            },
    {
        let n: usize = self.show_cache.len();
        let mut i: usize = 0;
        while i < n
            invariant
                n == self.show_cache.len(),
                i <= n,
                forall|j: int| 0 <= j < i ==> !is_entry(#[trigger] self.show_cache@[j], id@, kind),
            decreases n - i,
        {
            if self.show_cache[i].id == *id && self.show_cache[i].media_type == kind {
                return Some(i);
            }
            i += 1;
        }
        None
    }

    /// The position of the first result that is page `page`.
    pub fn page_at(&self, page: usize) -> (r: Option<usize>)
        ensures
            match r {
                Some(p) => is_first_page(self.search_results@, page, p as int),
                None => !has_page(self.search_results@, page),
            },
    {
        let n: usize = self.search_results.len();
        let mut i: usize = 0;
        while i < n
            invariant
                n == self.search_results.len(),
                i <= n,
                forall|j: int| 0 <= j < i ==> (#[trigger] self.search_results@[j]).page != page,
            decreases n - i,
        {
            if self.search_results[i].page == page {
                return Some(i);
            }
            i += 1;
        }
        None
    }

    /// The dialogue is opened for a search.
    pub fn click(&mut self)
        ensures
            *final(self) == (FindShow { modal_state: FindShowModalState::Searching, ..*old(self) }),
    {
        self.modal_state = FindShowModalState::Searching;
    }

    /// The dialogue is closed: the choice, the results and the title are
    /// forgotten; the cache stays.
    pub fn close_modal(&mut self)
        ensures
            final(self).modal_state == FindShowModalState::Closed,
            final(self).search_value@ == Seq::<char>::empty(),
            final(self).search_results@ == Seq::<SearchResponse>::empty(),
            final(self).show_cache == old(self).show_cache,
            final(self).current_page == Some(1usize),
            final(self).max_page == old(self).max_page,
            final(self).show_selected is None,
    {
        self.show_selected = None;
        self.search_results.clear();
        self.search_value = String::new();
        self.current_page = Some(1);
        self.modal_state = FindShowModalState::Closed;
    }

    /// Another title is typed: the results of the earlier title are
    /// forgotten and the search begins at page one.
    pub fn input_change(&mut self, input: String)
        ensures
            final(self).modal_state == old(self).modal_state,
            final(self).search_value == input,
            final(self).search_results@ == Seq::<SearchResponse>::empty(),
            final(self).show_cache == old(self).show_cache,
            final(self).current_page == Some(1usize),
            final(self).max_page == old(self).max_page,
            final(self).show_selected == old(self).show_selected,
    {
        self.search_value = input;
        self.search_results.clear();
        self.current_page = Some(1);
    }

    /// An entry is chosen for scheduling.
    pub fn show_selected(&mut self, id: String, kind: MediaType)
        ensures
            *final(self) == (FindShow {
                modal_state: FindShowModalState::Scheduling,
                show_selected: Some((id, kind)),
                ..*old(self)
            }),
    {
        self.show_selected = Some((id, kind));
        self.modal_state = FindShowModalState::Scheduling;
    }

    /// A page is asked for. Returns whether the catalog has to be asked:
    /// it has, unless the page is among the results.
    pub fn page_request(&mut self, page: usize) -> (fetch: bool)
        ensures
            fetch == !has_page(old(self).search_results@, page),
            *final(self) == (FindShow { current_page: Some(page), ..*old(self) }),
    {
        self.current_page = Some(page);
        self.page_at(page).is_none()
    }

    /// The catalog has described a show: it is cached in place of an
    /// earlier description of the same entry, else behind the others.
    pub fn show_result(&mut self, show: Show)
        ensures
            final(self).modal_state == old(self).modal_state,
            final(self).search_value == old(self).search_value,
            final(self).search_results == old(self).search_results,
            final(self).current_page == old(self).current_page,
            final(self).max_page == old(self).max_page,
            final(self).show_selected == old(self).show_selected,
            !is_cached(old(self).show_cache@, show.id@, show.media_type)
                ==> final(self).show_cache@ == old(self).show_cache@.push(show),
            forall|p: int|
                is_first_entry(old(self).show_cache@, show.id@, show.media_type, p)
                    ==> final(self).show_cache@ == old(self).show_cache@.update(p, show),
    {
        match self.cached_at(&show.id, show.media_type) {
            Some(p) => {
                self.show_cache[p] = show;
            },
            None => {
                self.show_cache.push(show);
            },
        }
    }

    /// The catalog has returned a page of results: it becomes the current
    /// page, in place of an earlier answer for the same page number, and
    /// its count of pages the last page. Returns number and kind of the
    /// hits that are not cached, in their order: those that the catalog is
    /// to describe.
    pub fn search_complete(&mut self, found: SearchResponse) -> (wanted: Vec<(String, MediaType)>)
        ensures
            final(self).modal_state == old(self).modal_state,
            final(self).search_value == old(self).search_value,
            final(self).show_cache == old(self).show_cache,
            final(self).show_selected == old(self).show_selected,
            final(self).current_page == Some(found.page),
            final(self).max_page == Some(found.total_pages),
            !has_page(old(self).search_results@, found.page) ==> final(self).search_results@
                == old(self).search_results@.push(found),
            forall|p: int|
                is_first_page(old(self).search_results@, found.page, p)
                    ==> final(self).search_results@ == old(self).search_results@.update(p, found),
            wanted@.len() == found.results@.filter(uncached(old(self).show_cache@)).len(),
            forall|i: int|
                0 <= i < wanted@.len() ==> {
                    &&& (#[trigger] wanted@[i]).0@ == found.results@.filter(
                        uncached(old(self).show_cache@),
                    )[i].id@
                    &&& wanted@[i].1 == found.results@.filter(
                        uncached(old(self).show_cache@),
                    )[i].media_type
                },
    {
        let ghost missing = uncached(self.show_cache@);
        let n: usize = found.results.len();
        let mut wanted: Vec<(String, MediaType)> = Vec::new();
        let mut i: usize = 0;
        while i < n
            invariant
                n == found.results.len(),
                i <= n,
                missing == uncached(self.show_cache@),
                *self == *old(self),
                wanted@.len() == found.results@.take(i as int).filter(missing).len(),
                forall|j: int|
                    0 <= j < wanted@.len() ==> {
                        &&& (#[trigger] wanted@[j]).0@ == found.results@.take(i as int).filter(
                            missing,
                        )[j].id@
                        &&& wanted@[j].1 == found.results@.take(i as int).filter(
                            missing,
                        )[j].media_type
                    },
            decreases n - i,
        {
            let hit = &found.results[i];
            proof {
                let seen = found.results@.take(i as int);
                seen.lemma_filter_push(*hit, missing);
                assert(seen.push(*hit) =~= found.results@.take(i + 1));
            }
            if self.cached_at(&hit.id, hit.media_type).is_none() {
                wanted.push((hit.id.clone(), hit.media_type));
            }
            i += 1;
        }
        proof {
            assert(found.results@.take(n as int) =~= found.results@);
        }
        self.current_page = Some(found.page);
        self.max_page = Some(found.total_pages);
        match self.page_at(found.page) {
            Some(p) => {
                self.search_results[p] = found;
            },
            None => {
                self.search_results.push(found);
            },
        }
        wanted
    }
}

} // verus!
