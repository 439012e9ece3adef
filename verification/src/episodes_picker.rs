//! The choice of episodes: whole seasons and single episodes, named by the
//! identifiers of the tabs and checkboxes that were ticked.

use vstd::prelude::*;
use vstd::string::StringExecFns;
use crate::schedule_show::{Episode, Season};
use crate::text::{field, field_string, fields, last_field_string, number_read, parse_number};

verus! {

/// The tabs of a season: all of its episodes, some, or none.
#[derive(Debug, Clone, Copy, PartialEq, Eq, Structural)]
pub enum EpisodePickerTab {
    All,
    SomeEpisodes,
    NoEpisodes,
}

/// The upper-case form of a text as `str::to_uppercase` gives it.
pub uninterp spec fn uppercase_text(s: Seq<char>) -> Seq<char>;

/// Upper-cases a text by `str::to_uppercase`. The contract only names the
/// result.
#[verifier::external_body]
fn uppercase(s: &str) -> (r: String)
    ensures
        r@ == uppercase_text(s@),
{
    s.to_uppercase()
}

impl EpisodePickerTab {
    /// The tab that an upper-case word names, if it names one.
    pub open spec fn named(word: Seq<char>) -> Option<EpisodePickerTab> {
        if word == "ALL"@ {
            Some(EpisodePickerTab::All)
        } else if word == "SOME"@ {
            Some(EpisodePickerTab::SomeEpisodes)
        } else if word == "NONE"@ {
            Some(EpisodePickerTab::NoEpisodes)
        } else {
            None
        }
    }

    /// The tab that an upper-case word names, if it names one.
    pub fn from_uppercase(word: &String) -> (r: Option<EpisodePickerTab>)
        ensures
            r == EpisodePickerTab::named(word@),
    {
        if *word == String::from_str("ALL") {
            Some(EpisodePickerTab::All)
        } else if *word == String::from_str("SOME") {
            Some(EpisodePickerTab::SomeEpisodes)
        } else if *word == String::from_str("NONE") {
            Some(EpisodePickerTab::NoEpisodes)
        } else {
            None
        }
    }

    /// The tab that the identifier of a tab names in its last field,
    /// whatever its case, as in `season_7_tab_all`.
    pub fn of_identifier(id: &str) -> (r: Option<EpisodePickerTab>)
        ensures
            r == EpisodePickerTab::named(uppercase_text(fields(id@).last())),
    {
        let last = last_field_string(id);
        let upper = uppercase(last.as_str());
        EpisodePickerTab::from_uppercase(&upper)
    }

    /// The tab that is shown after a click on the element `id`: the tab
    /// that `id` names, else the tab shown before.
    pub fn after_click(self, id: &str) -> (r: EpisodePickerTab)
        ensures
            r == (match EpisodePickerTab::named(uppercase_text(fields(id@).last())) {
                Some(tab) => tab,
                None => self,
            }),
    {
        match EpisodePickerTab::of_identifier(id) {
            Some(tab) => tab,
            None => self,
        }
    }
}

/// The first of `seasons` with number `number`.
pub open spec fn first_season(seasons: Seq<Season>, number: usize) -> Option<Season>
    decreases seasons.len(),
{
    if seasons.len() == 0 {
        None
    } else if seasons[0].season_number == number {
        Some(seasons[0])
    } else {
        first_season(seasons.drop_first(), number)
    }
}

/// The first of `episodes` with number `number`.
pub open spec fn first_episode(episodes: Seq<Episode>, number: usize) -> Option<Episode>
    decreases episodes.len(),
{
    if episodes.len() == 0 {
        None
    } else if episodes[0].episode_number == number {
        Some(episodes[0])
    } else {
        first_episode(episodes.drop_first(), number)
    }
}

/// The episodes of a season that was looked for: none where no season was
/// found or the season lists none.
pub open spec fn episodes_of(season: Option<Season>) -> Seq<Episode> {
    match season {
        Some(s) => match s.episodes {
            Some(episodes) => episodes@,
            None => Seq::empty(),
        },
        None => Seq::empty(),
    }
}

/// All episodes of the seasons numbered in `numbers`, season by season in
/// the order of `numbers`.
pub open spec fn whole_seasons(seasons: Seq<Season>, numbers: Seq<usize>) -> Seq<Episode>
    decreases numbers.len(),
{
    if numbers.len() == 0 {
        Seq::empty()
    } else {
        whole_seasons(seasons, numbers.drop_last()) + episodes_of(
            first_season(seasons, numbers.last()),
        )
    }
}

/// The episodes picked one by one as pairs of season and episode number, in
/// the order of `picks`; a pick that names no episode adds none.
pub open spec fn single_episodes(seasons: Seq<Season>, picks: Seq<(usize, usize)>) -> Seq<Episode>
    decreases picks.len(),
{
    if picks.len() == 0 {
        Seq::empty()
    } else {
        let rest = single_episodes(seasons, picks.drop_last());
        let season = first_season(seasons, picks.last().0);
        match first_episode(episodes_of(season), picks.last().1) {
            Some(e) => rest.push(e),
            None => rest,
        }
    }
}

/// The position of the first season with number `number`.
pub fn find_season(seasons: &Vec<Season>, number: usize) -> (r: Option<usize>)
    ensures
        match r {
            Some(i) => i < seasons@.len() && first_season(seasons@, number) == Some(seasons@[i as int]),
            None => first_season(seasons@, number) is None,
        },
{
    let n: usize = seasons.len();
    let mut i: usize = 0;
    assert(seasons@.skip(0) =~= seasons@);
    while i < n
        invariant
            n == seasons.len(),
            i <= n,
            first_season(seasons@, number) == first_season(seasons@.skip(i as int), number),
        decreases n - i,
    {
        proof {
            assert(seasons@.skip(i as int)[0] == seasons@[i as int]);
            assert(seasons@.skip(i as int).drop_first() =~= seasons@.skip(i + 1));
        }
        if seasons[i].season_number == number {
            return Some(i);
        }
        i += 1;
    }
    None
}

/// The position of the first episode with number `number`.
pub fn find_episode(episodes: &Vec<Episode>, number: usize) -> (r: Option<usize>)
    ensures
        match r {
            Some(i) => i < episodes@.len() && first_episode(episodes@, number) == Some(
                episodes@[i as int],
            ),
            None => first_episode(episodes@, number) is None,
        },
{
    let n: usize = episodes.len();
    let mut i: usize = 0;
    assert(episodes@.skip(0) =~= episodes@);
    while i < n
        invariant
            n == episodes.len(),
            i <= n,
            first_episode(episodes@, number) == first_episode(episodes@.skip(i as int), number),
        decreases n - i,
    {
        proof {
            assert(episodes@.skip(i as int)[0] == episodes@[i as int]);
            assert(episodes@.skip(i as int).drop_first() =~= episodes@.skip(i + 1));
        }
        if episodes[i].episode_number == number {
            return Some(i);
        }
        i += 1;
    }
    None
}

/// Appends copies of `episodes` to `out`.
pub fn append_episodes(out: &mut Vec<Episode>, episodes: &Vec<Episode>)
    ensures
        final(out)@ == old(out)@ + episodes@,
{
    let n: usize = episodes.len();
    let mut i: usize = 0;
    while i < n
        invariant
            n == episodes.len(),
            i <= n,
            out@ == old(out)@ + episodes@.take(i as int),
        decreases n - i,
    {
        out.push(episodes[i].clone());
        assert(out@ =~= old(out)@ + episodes@.take(i + 1));
        i += 1;
    }
    assert(episodes@.take(n as int) =~= episodes@);
}

/// The episodes to schedule: all episodes of the seasons chosen as a whole,
/// then the episodes picked one by one.
pub fn select_episodes(seasons: &Vec<Season>, whole: &Vec<usize>, picks: &Vec<(usize, usize)>) -> (r:
    Vec<Episode>)
    ensures
        r@ == whole_seasons(seasons@, whole@) + single_episodes(seasons@, picks@),
{
    let mut out: Vec<Episode> = Vec::new();
    let mut i: usize = 0;
    while i < whole.len()
        invariant
            i <= whole.len(),
            out@ == whole_seasons(seasons@, whole@.take(i as int)),
        decreases whole.len() - i,
    {
        proof {
            assert(whole@.take(i + 1).drop_last() =~= whole@.take(i as int));
        }
        match find_season(seasons, whole[i]) {
            Some(at) => match &seasons[at].episodes {
                Some(episodes) => {
                    append_episodes(&mut out, episodes);
                },
                None => {
                    assert(out@ + Seq::<Episode>::empty() =~= out@);
                },
            },
            None => {
                assert(out@ + Seq::<Episode>::empty() =~= out@);
            },
        }
        i += 1;
    }
    assert(whole@.take(whole.len() as int) =~= whole@);
    let ghost chosen = out@;
    let mut k: usize = 0;
    while k < picks.len()
        invariant
            k <= picks.len(),
            chosen == whole_seasons(seasons@, whole@),
            out@ == chosen + single_episodes(seasons@, picks@.take(k as int)),
        decreases picks.len() - k,
    {
        proof {
            assert(picks@.take(k + 1).drop_last() =~= picks@.take(k as int));
        }
        let pick: (usize, usize) = picks[k];
        match find_season(seasons, pick.0) {
            Some(at) => match &seasons[at].episodes {
                Some(episodes) => match find_episode(episodes, pick.1) {
                    Some(e) => {
                        out.push(episodes[e].clone());
                        assert(out@ =~= chosen + single_episodes(seasons@, picks@.take(k + 1)));
                    },
                    None => {},
                },
                None => {},
            },
            None => {},
        }
        k += 1;
    }
    assert(picks@.take(picks.len() as int) =~= picks@);
    out
}

/// The number that field `k` of `id` holds, where `id` has such a field and
/// it reads as a number.
pub open spec fn number_in_field(id: Seq<char>, k: nat) -> Option<usize> {
    match field(id, k) {
        Some(f) => number_read(f),
        None => None,
    }
}

/// The number that field `k` of `id` holds.
pub fn number_of_field(id: &str, k: usize) -> (r: Option<usize>)
    ensures
        r == number_in_field(id@, k as nat),
{
    match field_string(id, k) {
        Some(f) => parse_number(f.as_str()),
        None => None,
    }
}

/// The season that the identifier of a tab names: the number in its second
/// field, as in `season_7_tab_all`.
pub fn season_of_tab(id: &str) -> (r: Option<usize>)
    ensures
        r == number_in_field(id@, 1),
{
    number_of_field(id, 1)
}

/// The season and episode that the identifier of a checkbox names: the
/// numbers in its second and fourth field, as in `season_07_episode_14`.
pub fn episode_of_checkbox(id: &str) -> (r: Option<(usize, usize)>)
    ensures
        r == (match (number_in_field(id@, 1), number_in_field(id@, 3)) {
            (Some(season), Some(episode)) => Some((season, episode)),
            _ => None,
        }),
{
    match number_of_field(id, 1) {
        Some(season) => match number_of_field(id, 3) {
            Some(episode) => Some((season, episode)),
            None => None,
        },
        None => None,
    }
}

} // verus!
