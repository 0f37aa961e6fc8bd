//! The pinned probe queue: pairs the user asked to have captured, held for
//! the session and emptied as the book learns to answer them.

use vstd::prelude::*;
use crate::textutil::str_eq;

verus! {

/// A probe the user asked for, as opposed to one the radar suggested.
#[derive(Clone, Debug)]
pub struct PinnedProbe {
    pub from_asset_id: String,
    pub to_asset_id: String,
    /// Why it was worth pinning, already in the reader's language.
    pub reason: String,
}

/// What a pinned probe is, as characters.
pub struct ProbeView {
    pub from: Seq<char>,
    pub to: Seq<char>,
    pub reason: Seq<char>,
}

impl View for PinnedProbe {
    type V = ProbeView;

    open spec fn view(&self) -> ProbeView {
        ProbeView { from: self.from_asset_id@, to: self.to_asset_id@, reason: self.reason@ }
    }
}

/// Whether a probe asks for the pair `from -> to`.
pub open spec fn asks_for(p: ProbeView, from: Seq<char>, to: Seq<char>) -> bool {
    p.from == from && p.to == to
}

/// The entries that do not ask for `from -> to`.
pub open spec fn without_pair(s: Seq<ProbeView>, from: Seq<char>, to: Seq<char>) -> Seq<ProbeView> {
    s.filter(|p: ProbeView| !asks_for(p, from, to))
}

/// Whether some entry of `missing` names the pair that `p` asks for.
pub open spec fn still_missing(p: ProbeView, missing: Seq<(String, String)>) -> bool {
    exists|i: int| 0 <= i < missing.len() && #[trigger] asks_for(p, missing[i].0@, missing[i].1@)
}

/// Whether some entry of `s` asks for `from -> to`.
pub open spec fn queued(s: Seq<ProbeView>, from: Seq<char>, to: Seq<char>) -> bool {
    exists|i: int| 0 <= i < s.len() && #[trigger] asks_for(s[i], from, to)
}

/// The queue after pinning `e`: `e` in front, any earlier entry for its pair gone.
pub open spec fn pinned(s: Seq<ProbeView>, e: ProbeView) -> Seq<ProbeView> {
    seq![e] + without_pair(s, e.from, e.to)
}

/// No pair is queued twice.
pub open spec fn pairs_unique(s: Seq<ProbeView>) -> bool {
    forall|i: int, j: int|
        0 <= i < s.len() && 0 <= j < s.len() && i != j ==> !asks_for(s[i], s[j].from, s[j].to)
}

/// Filtering a queue never queues a pair twice.
pub proof fn lemma_filter_keeps_pairs_unique(s: Seq<ProbeView>, pred: spec_fn(ProbeView) -> bool)
    requires
        pairs_unique(s),
    ensures
        pairs_unique(s.filter(pred)),
    decreases s.len(),
{
    reveal_with_fuel(Seq::<_>::filter, 1);
    if s.len() > 0 {
        let rest = s.drop_last();
        assert(pairs_unique(rest));
        lemma_filter_keeps_pairs_unique(rest, pred);
        if pred(s.last()) {
            let f = rest.filter(pred);
            let out = f.push(s.last());
            assert forall|i: int, j: int|
                0 <= i < out.len() && 0 <= j < out.len() && i != j implies !asks_for(
                out[i],
                out[j].from,
                out[j].to,
            ) by {
                if i == out.len() - 1 || j == out.len() - 1 {
                    let k = if i == out.len() - 1 { j } else { i };
                    assert(f.contains(f[k]));
                    rest.lemma_filter_contains_rev(pred, f[k]);
                    let m = choose|m: int| 0 <= m < rest.len() && rest[m] == f[k];
                    assert(s[m] == f[k]);
                    assert(!asks_for(s[m], s[s.len() - 1].from, s[s.len() - 1].to));
                    assert(!asks_for(s[s.len() - 1], s[m].from, s[m].to));
                }
            }
        }
    }
}

impl PinnedProbe {
    /// An identical copy.
    pub fn duplicate(&self) -> (out: PinnedProbe)
        ensures
            out@ == self@,
    {
        PinnedProbe {
            from_asset_id: self.from_asset_id.clone(),
            to_asset_id: self.to_asset_id.clone(),
            reason: self.reason.clone(),
        }
    }

    /// Whether this probe asks for `from -> to`.
    pub fn matches(&self, from: &str, to: &str) -> (hit: bool)
        ensures
            hit == asks_for(self@, from@, to@),
    {
        str_eq(self.from_asset_id.as_str(), from) && str_eq(self.to_asset_id.as_str(), to)
    }
}

/// The pinned queue, and the rule that empties it.
pub struct ProbeQueue {
    pinned: Vec<PinnedProbe>,
}

impl Default for ProbeQueue {
    /// An empty queue.
    fn default() -> (q: Self)
        ensures
            q@ == Seq::<ProbeView>::empty(),
            q.wf(),
    {
        ProbeQueue::new()
    }
}

impl View for ProbeQueue {
    type V = Seq<ProbeView>;

    closed spec fn view(&self) -> Seq<ProbeView> {
        self.pinned@.map_values(|p: PinnedProbe| p@)
    }
}

impl ProbeQueue {
    /// The queue holds every pair at most once.
    pub open spec fn wf(&self) -> bool {
        pairs_unique(self@)
    }

    /// An empty queue.
    pub fn new() -> (q: Self)
        ensures
            q@ == Seq::<ProbeView>::empty(),
            q.wf(),
    {
        let q = ProbeQueue { pinned: Vec::new() };
        assert(q@ =~= Seq::<ProbeView>::empty());
        q
    }

    /// The queue, front first.
    pub fn entries(&self) -> (out: &[PinnedProbe])
        ensures
            out@.map_values(|p: PinnedProbe| p@) == self@,
    {
        self.pinned.as_slice()
    }

    /// Whether the pair `from -> to` is queued.
    pub fn is_pinned(&self, from: &str, to: &str) -> (hit: bool)
        ensures
            hit == queued(self@, from@, to@),
    {
        let mut i: usize = 0;
        while i < self.pinned.len()
            invariant
                i <= self.pinned.len(),
                self@.len() == self.pinned@.len(),
                forall|k: int| 0 <= k < i ==> !#[trigger] asks_for(self@[k], from@, to@),
            decreases self.pinned.len() - i,
        {
            if self.pinned[i].matches(from, to) {
                assert(asks_for(self@[i as int], from@, to@));
                return true;
            }
            i = i + 1;
        }
        false
    }

    /// Removes every entry asking for `from -> to`; the rest keep their order.
    fn drop_pair(&mut self, from: &str, to: &str)
        ensures
            final(self)@ == without_pair(old(self)@, from@, to@),
    {
        let ghost before = self@;
        let mut kept: Vec<PinnedProbe> = Vec::new();
        let mut i: usize = 0;
        while i < self.pinned.len()
            invariant
                i <= self.pinned.len(),
                before == self@,
                before.len() == self.pinned@.len(),
                kept@.map_values(|p: PinnedProbe| p@) == without_pair(before.take(i as int), from@, to@),
            decreases self.pinned.len() - i,
        {
            let entry = &self.pinned[i];
            assert(before.take(i + 1).drop_last() =~= before.take(i as int));
            reveal_with_fuel(Seq::<_>::filter, 1);
            if !entry.matches(from, to) {
                kept.push(entry.duplicate());
                assert(kept@.map_values(|p: PinnedProbe| p@) =~= without_pair(before.take(i + 1), from@, to@));
            } else {
                assert(kept@.map_values(|p: PinnedProbe| p@) =~= without_pair(before.take(i + 1), from@, to@));
            }
            i = i + 1;
        }
        assert(before.take(i as int) =~= before);
        self.pinned = kept;
    }

    /// Adds a pair, or moves it to the front if it is already queued.
    pub fn pin(&mut self, entry: PinnedProbe)
        ensures
            old(self).wf() ==> final(self).wf(),
            final(self)@ == pinned(old(self)@, entry@),
    {
        let ghost e = entry@;
        self.drop_pair(entry.from_asset_id.as_str(), entry.to_asset_id.as_str());
        let ghost rest = self@;
        self.pinned.insert(0, entry);
        assert(self@ =~= seq![e] + rest);
        proof {
            let pred = |p: ProbeView| !asks_for(p, e.from, e.to);
            if pairs_unique(old(self)@) {
                lemma_filter_keeps_pairs_unique(old(self)@, pred);
                assert forall|i: int, j: int|
                    0 <= i < self@.len() && 0 <= j < self@.len() && i != j implies !asks_for(
                    self@[i],
                    self@[j].from,
                    self@[j].to,
                ) by {
                    if i == 0 || j == 0 {
                        let k = if i == 0 { j } else { i };
                        assert(rest[k - 1] == self@[k]);
                        reveal_with_fuel(Seq::<_>::filter, 1);
                        old(self)@.lemma_filter_pred(pred, k - 1);
                    } else {
                        assert(self@[i] == rest[i - 1] && self@[j] == rest[j - 1]);
                    }
                }
            }
        }
    }

    /// Takes the pair `from -> to` off the queue.
    pub fn unpin(&mut self, from: &str, to: &str)
        ensures
            old(self).wf() ==> final(self).wf(),
            final(self)@ == without_pair(old(self)@, from@, to@),
    {
        self.drop_pair(from, to);
        proof {
            if old(self).wf() {
                lemma_filter_keeps_pairs_unique(old(self)@, |p: ProbeView| !asks_for(p, from@, to@));
            }
        }
    }

    /// Drops every pinned pair the book can now answer: an entry stays only
    /// while `still_missing` still names its pair.
    pub fn retain_missing(&mut self, missing: &[(String, String)])
        ensures
            final(self)@ == old(self)@.filter(|p: ProbeView| still_missing(p, missing@)),
            old(self).wf() ==> final(self).wf(),
            forall|k: int| 0 <= k < final(self)@.len() ==> names_pair(missing@, #[trigger] final(self)@[k]),
            forall|k: int, i: int| 0 <= k < old(self)@.len() && 0 <= i < missing@.len()
                && (#[trigger] old(self)@[k]).from == (#[trigger] missing@[i]).0@ && old(self)@[k].to == missing@[i].1@
                ==> final(self)@.contains(old(self)@[k]),
    {
        let ghost before = self@;
        let ghost keep = |p: ProbeView| still_missing(p, missing@);
        let mut kept: Vec<PinnedProbe> = Vec::new();
        let mut i: usize = 0;
        while i < self.pinned.len()
            invariant
                i <= self.pinned.len(),
                before == self@,
                before.len() == self.pinned@.len(),
                keep == (|p: ProbeView| still_missing(p, missing@)),
                kept@.map_values(|p: PinnedProbe| p@) == before.take(i as int).filter(keep),
            decreases self.pinned.len() - i,
        {
            let entry = &self.pinned[i];
            let mut found = false;
            let mut j: usize = 0;
            while j < missing.len()
                invariant
                    j <= missing.len(),
                    entry@ == before[i as int],
                    found == (exists|k: int| 0 <= k < j && #[trigger] asks_for(entry@, missing@[k].0@, missing@[k].1@)),
                decreases missing.len() - j,
            {
                if entry.matches(missing[j].0.as_str(), missing[j].1.as_str()) {
                    found = true;
                }
                j = j + 1;
            }
            assert(found == keep(entry@));
            assert(before.take(i + 1).drop_last() =~= before.take(i as int));
            reveal_with_fuel(Seq::<_>::filter, 1);
            if found {
                kept.push(entry.duplicate());
            }
            assert(kept@.map_values(|p: PinnedProbe| p@) =~= before.take(i + 1).filter(keep));
            i = i + 1;
        }
        assert(before.take(i as int) =~= before);
        self.pinned = kept;
        proof {
            if pairs_unique(before) {
                lemma_filter_keeps_pairs_unique(before, keep);
            }
            law_only_pairs_still_missing_stay(before, missing@, self@);
        }
    }
}

/// A pinned pair is queued, at the front.
pub proof fn law_pin_puts_the_pair_in_front(q: Seq<ProbeView>, e: ProbeView)
    ensures
        pinned(q, e)[0] == e,
        queued(pinned(q, e), e.from, e.to),
{
    assert(asks_for(pinned(q, e)[0], e.from, e.to));
}

/// Pinning a pair that is already queued moves it rather than adding a
/// second copy: pinning twice is pinning once.
pub proof fn law_pin_is_idempotent(q: Seq<ProbeView>, e: ProbeView)
    ensures
        pinned(pinned(q, e), e) == pinned(q, e),
{
    lemma_pair_gone_after_pin(q, e);
}

/// Unpinning a pair that was just pinned leaves the queue as unpinning it
/// alone would have: no trace of the pair remains.
pub proof fn law_unpin_undoes_pin(q: Seq<ProbeView>, e: ProbeView)
    ensures
        without_pair(pinned(q, e), e.from, e.to) == without_pair(q, e.from, e.to),
        !queued(without_pair(q, e.from, e.to), e.from, e.to),
{
    lemma_pair_gone_after_pin(q, e);
    let pred = |p: ProbeView| !asks_for(p, e.from, e.to);
    let w = without_pair(q, e.from, e.to);
    if queued(w, e.from, e.to) {
        let i = choose|i: int| 0 <= i < w.len() && #[trigger] asks_for(w[i], e.from, e.to);
        q.lemma_filter_pred(pred, i);
    }
}

/// Dropping the pinned pair from a freshly pinned queue gives back the
/// queue without that pair.
proof fn lemma_pair_gone_after_pin(q: Seq<ProbeView>, e: ProbeView)
    ensures
        without_pair(pinned(q, e), e.from, e.to) == without_pair(q, e.from, e.to),
{
    let pred = |p: ProbeView| !asks_for(p, e.from, e.to);
    let w = without_pair(q, e.from, e.to);
    Seq::filter_distributes_over_add(seq![e], w, pred);
    lemma_single_dropped(e, pred);
    lemma_filter_twice(q, pred);
    assert(without_pair(pinned(q, e), e.from, e.to) =~= w);
}

/// A one-element sequence whose element fails the predicate filters to nothing.
proof fn lemma_single_dropped(e: ProbeView, pred: spec_fn(ProbeView) -> bool)
    requires
        !pred(e),
    ensures
        seq![e].filter(pred) == Seq::<ProbeView>::empty(),
{
    reveal_with_fuel(Seq::<_>::filter, 2);
    assert(seq![e].drop_last() =~= Seq::<ProbeView>::empty());
    assert(seq![e].filter(pred) =~= Seq::<ProbeView>::empty());
}

/// When the coverage pass reports nothing missing, the queue empties.
pub proof fn law_nothing_missing_empties_the_queue(q: Seq<ProbeView>, missing: Seq<(String, String)>)
    requires
        missing.len() == 0,
    ensures
        q.filter(|p: ProbeView| still_missing(p, missing)).len() == 0,
{
    let keep = |p: ProbeView| still_missing(p, missing);
    if q.filter(keep).len() > 0 {
        q.lemma_filter_pred(keep, 0);
    }
}

/// `missing` names the pair `p` asks for, both ends.
pub open spec fn names_pair(missing: Seq<(String, String)>, p: ProbeView) -> bool {
    exists|i: int| 0 <= i < missing.len() && #[trigger] missing[i].0@ == p.from && missing[i].1@ == p.to
}

/// Only a pair the book still misses stays queued, and every one it still
/// misses stays: when `kept` is the queue with the answered pairs dropped,
/// each entry's pair, both ends, is named in `missing`, and each entry
/// whose exact pair is named there is kept.
pub proof fn law_only_pairs_still_missing_stay(q: Seq<ProbeView>, missing: Seq<(String, String)>, kept: Seq<ProbeView>)
    requires
        kept == q.filter(|p: ProbeView| still_missing(p, missing)),
    ensures
        forall|k: int| 0 <= k < kept.len() ==> names_pair(missing, #[trigger] kept[k]),
        forall|k: int, i: int| 0 <= k < q.len() && 0 <= i < missing.len()
            && (#[trigger] q[k]).from == (#[trigger] missing[i]).0@ && q[k].to == missing[i].1@
            ==> kept.contains(q[k]),
{
    let keep = |p: ProbeView| still_missing(p, missing);
    assert(kept == q.filter(keep));
    assert forall|k: int| 0 <= k < kept.len() implies names_pair(missing, #[trigger] kept[k]) by {
        q.lemma_filter_pred(keep, k);
        assert(still_missing(kept[k], missing));
        let i = choose|i: int| 0 <= i < missing.len() && #[trigger] asks_for(kept[k], missing[i].0@, missing[i].1@);
        assert(kept[k].from == missing[i].0@ && kept[k].to == missing[i].1@);
    }
    assert forall|k: int, i: int| 0 <= k < q.len() && 0 <= i < missing.len()
        && (#[trigger] q[k]).from == (#[trigger] missing[i]).0@ && q[k].to == missing[i].1@
        implies kept.contains(q[k]) by {
        assert(asks_for(q[k], missing[i].0@, missing[i].1@));
        assert(keep(q[k]));
        q.lemma_filter_contains(keep, k);
    }
}

/// Filtering twice by the same predicate is filtering once.
proof fn lemma_filter_twice(s: Seq<ProbeView>, pred: spec_fn(ProbeView) -> bool)
    ensures
        s.filter(pred).filter(pred) == s.filter(pred),
    decreases s.len(),
{
    reveal_with_fuel(Seq::<_>::filter, 1);
    if s.len() > 0 {
        lemma_filter_twice(s.drop_last(), pred);
        let f = s.drop_last().filter(pred);
        if pred(s.last()) {
            assert(f.push(s.last()).drop_last() =~= f);
        }
    }
}

} // verus!
