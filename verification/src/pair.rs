//! The convert page's pair: which two currencies the report is about, who
//! chose them, and when the pickers must be told.

use vstd::prelude::*;
use crate::textutil::str_eq;

verus! {

/// A pair as characters: what is held, what is wanted.
pub open spec fn pair_view(pair: Option<(String, String)>) -> Option<(Seq<char>, Seq<char>)> {
    match pair {
        Some((have, need)) => Some((have@, need@)),
        None => None,
    }
}

/// The pair the report describes and what the page knows about it.
pub struct PairState {
    /// The pair the report is about.
    pub report_pair: Option<(String, String)>,
    /// The user picked the pair; a book arriving for another pair must not
    /// drag the page away from it.
    pub chosen_by_user: bool,
    /// The report on screen no longer describes the pair.
    pub report_stale: bool,
    /// The pair last pushed into the pickers.
    pub synced_pair: Option<(String, String)>,
}

fn same_pair(a: &Option<(String, String)>, b: &Option<(String, String)>) -> (same: bool)
    ensures
        same == (pair_view(*a) == pair_view(*b)),
{
    match (a, b) {
        (Some((a0, a1)), Some((b0, b1))) => str_eq(a0.as_str(), b0.as_str()) && str_eq(a1.as_str(), b1.as_str()),
        (None, None) => true,
        _ => false,
    }
}

fn copy_pair(p: &Option<(String, String)>) -> (out: Option<(String, String)>)
    ensures
        pair_view(out) == pair_view(*p),
{
    match p {
        Some((have, need)) => Some((have.clone(), need.clone())),
        None => None,
    }
}

impl PairState {
    /// No pair yet.
    pub fn new() -> (state: Self)
        ensures
            pair_view(state.report_pair) is None,
            !state.chosen_by_user,
            !state.report_stale,
            pair_view(state.synced_pair) is None,
    {
        PairState { report_pair: None, chosen_by_user: false, report_stale: false, synced_pair: None }
    }

    /// Takes the pair from what the two pickers say. Nothing happens while
    /// either picker is empty; otherwise the choice is the user's, and the
    /// report goes stale only if the pair actually changed.
    pub fn choose_pair(&mut self, have: Option<&str>, need: Option<&str>)
        ensures
            (have is None || need is None) ==> pair_view(final(self).report_pair) == pair_view(old(self).report_pair)
                && final(self).chosen_by_user == old(self).chosen_by_user
                && final(self).report_stale == old(self).report_stale
                && pair_view(final(self).synced_pair) == pair_view(old(self).synced_pair),
            (have is Some && need is Some) ==> {
                let chosen = Some((have.unwrap()@, need.unwrap()@));
                &&& pair_view(final(self).report_pair) == chosen
                &&& final(self).chosen_by_user
                &&& final(self).report_stale == (old(self).report_stale || pair_view(old(self).report_pair) != chosen)
                &&& pair_view(final(self).synced_pair) == pair_view(old(self).synced_pair)
            },
    {
        let (have, need) = match (have, need) {
            (Some(h), Some(n)) => (h, n),
            _ => return,
        };
        let pair = Some((have.to_owned(), need.to_owned()));
        self.chosen_by_user = true;
        if same_pair(&self.report_pair, &pair) {
            return;
        }
        self.report_pair = pair;
        self.report_stale = true;
    }

    /// Turns the pair around: what was wanted is now held. Nothing happens
    /// while either picker is empty.
    pub fn swap_pair(&mut self, have: Option<&str>, need: Option<&str>)
        ensures
            (have is None || need is None) ==> pair_view(final(self).report_pair) == pair_view(old(self).report_pair)
                && final(self).chosen_by_user == old(self).chosen_by_user
                && final(self).report_stale == old(self).report_stale
                && pair_view(final(self).synced_pair) == pair_view(old(self).synced_pair),
            (have is Some && need is Some) ==> {
                &&& pair_view(final(self).report_pair) == Some((need.unwrap()@, have.unwrap()@))
                &&& final(self).chosen_by_user
                &&& final(self).report_stale
                &&& pair_view(final(self).synced_pair) == pair_view(old(self).synced_pair)
            },
    {
        let (have, need) = match (have, need) {
            (Some(h), Some(n)) => (h, n),
            _ => return,
        };
        self.report_pair = Some((need.to_owned(), have.to_owned()));
        self.chosen_by_user = true;
        self.report_stale = true;
    }

    /// The pair to push into the pickers, once per change: judged against
    /// the last pair pushed, never against what the pickers report, which
    /// lags behind a push.
    pub fn pair_to_push(&mut self) -> (push: Option<(String, String)>)
        ensures
            pair_view(final(self).synced_pair) == pair_view(old(self).report_pair),
            pair_view(final(self).report_pair) == pair_view(old(self).report_pair),
            final(self).chosen_by_user == old(self).chosen_by_user,
            final(self).report_stale == old(self).report_stale,
            pair_view(old(self).report_pair) == pair_view(old(self).synced_pair) ==> pair_view(push) is None,
            pair_view(old(self).report_pair) != pair_view(old(self).synced_pair) ==> pair_view(push) == pair_view(old(self).report_pair),
    {
        if same_pair(&self.report_pair, &self.synced_pair) {
            return None;
        }
        self.synced_pair = copy_pair(&self.report_pair);
        copy_pair(&self.report_pair)
    }
}

} // verus!
