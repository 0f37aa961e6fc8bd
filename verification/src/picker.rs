//! The currency picker: rows that show one name and search by all of them.
//!
//! A row carries the id that is picked, the label that is shown, and the
//! folded search keys of every name the currency goes by. A typed query is
//! folded the same way (case and punctuation away) before it is looked for
//! in the keys, so `divine orb` finds `divine-orb`.

use vstd::prelude::*;
use crate::order::views;
use crate::textutil::chars_of;

verus! {

/// One row of a currency picker.
pub struct AssetChoice {
    id: String,
    label: String,
    /// Folded forms of both names, the id and any aliases.
    keys: Vec<String>,
}

/// A row as values: id, label, keys.
pub struct ChoiceView {
    pub id: Seq<char>,
    pub label: Seq<char>,
    pub keys: Seq<Seq<char>>,
}

impl View for AssetChoice {
    type V = ChoiceView;

    closed spec fn view(&self) -> ChoiceView {
        ChoiceView { id: self.id@, label: self.label@, keys: views(self.keys@) }
    }
}

/// `needle` occurs in `hay` as a run of consecutive characters.
pub open spec fn contains_text(hay: Seq<char>, needle: Seq<char>) -> bool {
    exists|i: int| 0 <= i <= hay.len() - needle.len() && #[trigger] hay.subrange(i, i + needle.len()) == needle
}

/// Whether a character survives folding: ASCII punctuation, ASCII symbols
/// and whitespace are folded away; letters, digits and every other script
/// stay.
pub open spec fn kept_in_fold(c: char) -> bool {
    let ascii_alnum = ('a' <= c && c <= 'z') || ('A' <= c && c <= 'Z') || ('0' <= c && c <= '9');
    !(c <= '\u{7f}' && !ascii_alnum) && !crate::numbers::is_ws(c)
}

/// A kept character as it is folded: ASCII capitals to small letters.
pub open spec fn folded_char(c: char) -> char {
    if 'A' <= c && c <= 'Z' { ((c as u32) + 32) as char } else { c }
}

/// A text folded for search: case and punctuation folded away, so
/// `Divine Orb`, `divine orb`, `DIVINE-ORB` all read `divineorb`.
pub open spec fn fold_text(s: Seq<char>) -> Seq<char>
    decreases s.len(),
{
    if s.len() == 0 {
        Seq::empty()
    } else if kept_in_fold(s.last()) {
        fold_text(s.drop_last()).push(folded_char(s.last()))
    } else {
        fold_text(s.drop_last())
    }
}

/// Whether a row answers a typed query: the query is folded, every row
/// answers one that folds to nothing, otherwise one of the row's (folded)
/// keys holds the folded query.
pub open spec fn answers(c: ChoiceView, query: Seq<char>) -> bool {
    let q = fold_text(query);
    q.len() == 0 || exists|k: int| 0 <= k < c.keys.len() && contains_text(#[trigger] c.keys[k], q)
}

/// The rows a typed query keeps.
pub open spec fn answering(query: Seq<char>) -> spec_fn(ChoiceView) -> bool {
    |c: ChoiceView| answers(c, query)
}

fn fold_char(c: char) -> (out: Option<char>)
    ensures
        out == (if kept_in_fold(c) { Some(folded_char(c)) } else { None }),
{
    let ascii_alnum = ('a' <= c && c <= 'z') || ('A' <= c && c <= 'Z') || ('0' <= c && c <= '9');
    if (c <= '\u{7f}' && !ascii_alnum) || crate::numbers::is_ws_char(c) {
        None
    } else if 'A' <= c && c <= 'Z' {
        let b = (c as u8) + 32;
        let lower = b as char;
        assert(lower == folded_char(c));
        Some(lower)
    } else {
        Some(c)
    }
}

fn fold_chars(q: &Vec<char>) -> (out: Vec<char>)
    ensures
        out@ == fold_text(q@),
{
    let mut out: Vec<char> = Vec::new();
    let mut i: usize = 0;
    while i < q.len()
        invariant
            i <= q@.len(),
            out@ == fold_text(q@.take(i as int)),
        decreases q.len() - i,
    {
        assert(q@.take(i + 1).drop_last() =~= q@.take(i as int));
        assert(q@.take(i + 1).last() == q@[i as int]);
        match fold_char(q[i]) {
            Some(c) => out.push(c),
            None => {},
        }
        i = i + 1;
    }
    assert(q@.take(i as int) =~= q@);
    out
}

/// A typed query folded for search (see `fold_text`).
pub fn fold_query(query: &str) -> (folded: String)
    ensures
        folded@ == fold_text(query@),
{
    let q = fold_chars(&chars_of(query));
    let mut out = String::new();
    let mut i: usize = 0;
    while i < q.len()
        invariant
            i <= q@.len(),
            out@ == q@.take(i as int),
        decreases q.len() - i,
    {
        crate::textutil::push_char(&mut out, q[i]);
        assert(q@.take(i + 1) =~= q@.take(i as int).push(q@[i as int]));
        i = i + 1;
    }
    assert(q@.take(i as int) =~= q@);
    out
}

/// The rows as values.
pub open spec fn choice_views(s: Seq<AssetChoice>) -> Seq<ChoiceView> {
    s.map_values(|c: AssetChoice| c@)
}

fn copy_strings(v: &Vec<String>) -> (out: Vec<String>)
    ensures
        views(out@) == views(v@),
{
    let mut out: Vec<String> = Vec::new();
    let mut i: usize = 0;
    while i < v.len()
        invariant
            i <= v@.len(),
            out@.len() == i,
            views(out@) == views(v@).take(i as int),
        decreases v.len() - i,
    {
        let c = v[i].clone();
        let ghost before = out@;
        out.push(c);
        proof {
            assert(out@[i as int]@ == v@[i as int]@);
            assert forall|k: int| 0 <= k < i implies views(out@)[k] == views(v@)[k] by {
                assert(views(out@)[k] == out@[k]@);
                assert(out@[k] == before[k]);
                assert(views(before)[k] == views(v@).take(i as int)[k]);
            }
        }
        assert(views(out@) =~= views(v@).take(i + 1));
        i = i + 1;
    }
    assert(views(v@).take(i as int) =~= views(v@));
    out
}

/// Whether `needle` occurs in `hay`.
fn text_contains(hay: &str, needle: &Vec<char>) -> (found: bool)
    requires
        needle@.len() > 0,
    ensures
        found == contains_text(hay@, needle@),
{
    let h = chars_of(hay);
    let n = needle.len();
    if n > h.len() {
        proof {
            assert forall|i: int| 0 <= i <= hay@.len() - needle@.len() implies
                #[trigger] hay@.subrange(i, i + needle@.len()) != needle@ by {}
        }
        return false;
    }
    let hl = h.len();
    let last = hl - n;
    let mut i: usize = 0;
    while i <= last
        invariant
            h@ == hay@,
            n == needle@.len(),
            0 < n <= h@.len(),
            hl == h@.len(),
            last == h@.len() - n,
            i <= last + 1,
            forall|p: int| 0 <= p < i ==> #[trigger] hay@.subrange(p, p + n) != needle@,
        decreases last + 1 - i,
    {
        let mut j: usize = 0;
        while j < n && h[i + j] == needle[j]
            invariant
                h@ == hay@,
                n == needle@.len(),
                0 < n <= h@.len(),
                hl == h@.len(),
                i <= last,
                last == h@.len() - n,
                j <= n,
                forall|q: int| 0 <= q < j ==> h@[i + q] == needle@[q],
            decreases n - j,
        {
            j = j + 1;
        }
        if j == n {
            assert(hay@.subrange(i as int, i + n) =~= needle@);
            return true;
        }
        assert(hay@.subrange(i as int, i + n)[j as int] != needle@[j as int]);
        i = i + 1;
    }
    false
}

impl AssetChoice {
    /// A row that picks `id`, shows `label` and is found by `keys`.
    pub fn new(id: String, label: String, keys: Vec<String>) -> (c: Self)
        ensures
            c@ == (ChoiceView { id: id@, label: label@, keys: views(keys@) }),
    {
        AssetChoice { id, label, keys }
    }

    /// The name the row shows.
    pub fn label(&self) -> (name: &str)
        ensures
            name@ == self@.label,
    {
        self.label.as_str()
    }

    /// The id the row picks.
    pub fn id(&self) -> (id: &str)
        ensures
            id@ == self@.id,
    {
        self.id.as_str()
    }

    /// An identical copy.
    pub fn duplicate(&self) -> (out: AssetChoice)
        ensures
            out@ == self@,
    {
        AssetChoice { id: self.id.clone(), label: self.label.clone(), keys: copy_strings(&self.keys) }
    }

    /// Whether the row answers a typed query (folded first).
    pub fn matches(&self, query: &str) -> (hit: bool)
        ensures
            hit == answers(self@, query@),
    {
        let q = fold_chars(&chars_of(query));
        if q.len() == 0 {
            return true;
        }
        let mut k: usize = 0;
        while k < self.keys.len()
            invariant
                q@ == fold_text(query@),
                q@.len() > 0,
                k <= self@.keys.len(),
                self@.keys.len() == self.keys@.len(),
                forall|m: int| 0 <= m < k ==> !contains_text(#[trigger] self@.keys[m], q@),
            decreases self.keys.len() - k,
        {
            assert(self@.keys[k as int] == self.keys@[k as int]@);
            if text_contains(self.keys[k].as_str(), &q) {
                return true;
            }
            k = k + 1;
        }
        false
    }
}

/// The picker's list: every row, and the rows the last query kept.
pub struct AssetList {
    items: Vec<AssetChoice>,
    matched: Vec<AssetChoice>,
}

/// The list as values: every row, and the rows shown.
pub struct ListView {
    pub items: Seq<ChoiceView>,
    pub matched: Seq<ChoiceView>,
}

impl View for AssetList {
    type V = ListView;

    closed spec fn view(&self) -> ListView {
        ListView { items: choice_views(self.items@), matched: choice_views(self.matched@) }
    }
}

impl AssetList {
    /// A list whose query is still empty: every row shows.
    pub fn new(items: Vec<AssetChoice>) -> (list: Self)
        ensures
            list@.items == choice_views(items@),
            list@.matched == choice_views(items@),
    {
        let mut matched: Vec<AssetChoice> = Vec::new();
        let mut i: usize = 0;
        while i < items.len()
            invariant
                i <= items@.len(),
                matched@.len() == i,
                choice_views(matched@) == choice_views(items@).take(i as int),
            decreases items.len() - i,
        {
            let c = items[i].duplicate();
            let ghost before = matched@;
            matched.push(c);
            proof {
                assert(matched@[i as int]@ == items@[i as int]@);
                assert forall|k: int| 0 <= k < i implies choice_views(matched@)[k] == choice_views(items@)[k] by {
                    assert(choice_views(matched@)[k] == matched@[k]@);
                    assert(matched@[k] == before[k]);
                    assert(choice_views(before)[k] == choice_views(items@).take(i as int)[k]);
                }
            }
            assert(choice_views(matched@) =~= choice_views(items@).take(i + 1));
            i = i + 1;
        }
        assert(choice_views(items@).take(i as int) =~= choice_views(items@));
        AssetList { items, matched }
    }

    /// Every row.
    pub fn items(&self) -> (rows: &Vec<AssetChoice>)
        ensures
            choice_views(rows@) == self@.items,
    {
        &self.items
    }

    /// The rows the last query kept.
    pub fn matched(&self) -> (rows: &Vec<AssetChoice>)
        ensures
            choice_views(rows@) == self@.matched,
    {
        &self.matched
    }

    /// Keeps the rows a folded query names.
    pub fn search(&mut self, query: &str)
        ensures
            final(self)@.items == old(self)@.items,
            final(self)@.matched == old(self)@.items.filter(answering(query@)),
    {
        self.matched = Self::filter(self.items.as_slice(), query);
    }

    /// The rows, in order, that answer a folded query.
    pub fn filter(items: &[AssetChoice], query: &str) -> (kept: Vec<AssetChoice>)
        ensures
            choice_views(kept@) == choice_views(items@).filter(answering(query@)),
    {
        let ghost all = choice_views(items@);
        let ghost keep = answering(query@);
        let mut out: Vec<AssetChoice> = Vec::new();
        let mut i: usize = 0;
        while i < items.len()
            invariant
                i <= items@.len(),
                all == choice_views(items@),
                keep == answering(query@),
                choice_views(out@) == all.take(i as int).filter(keep),
            decreases items.len() - i,
        {
            proof {
                assert(all.take(i + 1).drop_last() =~= all.take(i as int));
                assert(all.take(i + 1).last() == items@[i as int]@);
                reveal_with_fuel(Seq::<_>::filter, 1);
            }
            if items[i].matches(query) {
                out.push(items[i].duplicate());
            }
            proof {
                assert(choice_views(out@) =~= all.take(i + 1).filter(keep));
            }
            i = i + 1;
        }
        assert(all.take(i as int) =~= all);
        out
    }
}

/// An empty query keeps the whole list, in its order.
pub proof fn law_an_empty_query_keeps_every_row(rows: Seq<ChoiceView>, query: Seq<char>)
    requires
        fold_text(query).len() == 0,
    ensures
        rows.filter(answering(query)) == rows,
    decreases rows.len(),
{
    reveal_with_fuel(Seq::<_>::filter, 1);
    if rows.len() > 0 {
        law_an_empty_query_keeps_every_row(rows.drop_last(), query);
        assert(answering(query)(rows.last()));
        assert(rows.drop_last().push(rows.last()) =~= rows);
    }
}

} // verus!
