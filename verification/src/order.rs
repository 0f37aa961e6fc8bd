//! The order `String` sorts by (character by character, a proper prefix
//! first), and a stable sort by such keys for the settings lists.

use vstd::prelude::*;
use crate::textutil::chars_of;

verus! {

/// `a` sorts strictly before `b`.
pub open spec fn seq_lt(a: Seq<char>, b: Seq<char>) -> bool
    decreases a.len(),
{
    if a.len() == 0 {
        b.len() > 0
    } else if b.len() == 0 {
        false
    } else if a[0] != b[0] {
        (a[0] as int) < (b[0] as int)
    } else {
        seq_lt(a.drop_first(), b.drop_first())
    }
}

/// A two-part sort key: first part first, second part breaks ties.
pub open spec fn key_lt(a: (Seq<char>, Seq<char>), b: (Seq<char>, Seq<char>)) -> bool {
    seq_lt(a.0, b.0) || (a.0 == b.0 && seq_lt(a.1, b.1))
}

pub proof fn lemma_seq_lt_irreflexive(a: Seq<char>)
    ensures
        !seq_lt(a, a),
    decreases a.len(),
{
    if a.len() > 0 {
        lemma_seq_lt_irreflexive(a.drop_first());
    }
}

pub proof fn lemma_seq_lt_total(a: Seq<char>, b: Seq<char>)
    ensures
        a == b || seq_lt(a, b) || seq_lt(b, a),
    decreases a.len(),
{
    if a.len() > 0 && b.len() > 0 && a[0] == b[0] {
        lemma_seq_lt_total(a.drop_first(), b.drop_first());
        if a.drop_first() == b.drop_first() {
            assert(a =~= seq![a[0]] + a.drop_first());
            assert(b =~= seq![b[0]] + b.drop_first());
        }
    } else if a.len() == 0 && b.len() == 0 {
        assert(a =~= b);
    } else if a.len() > 0 && b.len() > 0 {
        assert((a[0] as int) != (b[0] as int));
    }
}

pub proof fn lemma_seq_lt_asymmetric(a: Seq<char>, b: Seq<char>)
    ensures
        seq_lt(a, b) ==> !seq_lt(b, a),
    decreases a.len(),
{
    if a.len() > 0 && b.len() > 0 && a[0] == b[0] {
        lemma_seq_lt_asymmetric(a.drop_first(), b.drop_first());
    }
}

pub proof fn lemma_seq_lt_transitive(a: Seq<char>, b: Seq<char>, c: Seq<char>)
    requires
        seq_lt(a, b),
        seq_lt(b, c),
    ensures
        seq_lt(a, c),
    decreases a.len(),
{
    if a.len() > 0 && b.len() > 0 && c.len() > 0 && a[0] == b[0] && b[0] == c[0] {
        lemma_seq_lt_transitive(a.drop_first(), b.drop_first(), c.drop_first());
    }
}

pub proof fn lemma_key_lt_irreflexive(a: (Seq<char>, Seq<char>))
    ensures
        !key_lt(a, a),
{
    lemma_seq_lt_irreflexive(a.0);
    lemma_seq_lt_irreflexive(a.1);
}

pub proof fn lemma_key_lt_total(a: (Seq<char>, Seq<char>), b: (Seq<char>, Seq<char>))
    ensures
        a == b || key_lt(a, b) || key_lt(b, a),
{
    lemma_seq_lt_total(a.0, b.0);
    lemma_seq_lt_total(a.1, b.1);
}

pub proof fn lemma_key_lt_asymmetric(a: (Seq<char>, Seq<char>), b: (Seq<char>, Seq<char>))
    ensures
        key_lt(a, b) ==> !key_lt(b, a),
{
    lemma_seq_lt_asymmetric(a.0, b.0);
    lemma_seq_lt_asymmetric(a.1, b.1);
    lemma_seq_lt_irreflexive(a.0);
}

pub proof fn lemma_key_lt_transitive(a: (Seq<char>, Seq<char>), b: (Seq<char>, Seq<char>), c: (Seq<char>, Seq<char>))
    requires
        key_lt(a, b),
        key_lt(b, c),
    ensures
        key_lt(a, c),
{
    if seq_lt(a.0, b.0) && seq_lt(b.0, c.0) {
        lemma_seq_lt_transitive(a.0, b.0, c.0);
    } else if seq_lt(a.1, b.1) && seq_lt(b.1, c.1) && a.0 == b.0 && b.0 == c.0 {
        lemma_seq_lt_transitive(a.1, b.1, c.1);
    }
}

proof fn lemma_seq_lt_skip(a: Seq<char>, b: Seq<char>, i: int)
    requires
        0 <= i <= a.len(),
        i <= b.len(),
        a.take(i) == b.take(i),
    ensures
        seq_lt(a, b) == seq_lt(a.skip(i), b.skip(i)),
    decreases i,
{
    if i > 0 {
        assert(a[0] == a.take(i)[0]);
        assert(b[0] == b.take(i)[0]);
        assert(a.drop_first().take(i - 1) =~= a.take(i).drop_first());
        assert(b.drop_first().take(i - 1) =~= b.take(i).drop_first());
        lemma_seq_lt_skip(a.drop_first(), b.drop_first(), i - 1);
        assert(a.drop_first().skip(i - 1) =~= a.skip(i));
        assert(b.drop_first().skip(i - 1) =~= b.skip(i));
    } else {
        assert(a.skip(0) =~= a);
        assert(b.skip(0) =~= b);
    }
}

/// Whether `a` sorts strictly before `b`, as `String`'s `<` decides.
pub fn str_less(a: &str, b: &str) -> (less: bool)
    ensures
        less == seq_lt(a@, b@),
{
    let x = chars_of(a);
    let y = chars_of(b);
    let mut i: usize = 0;
    while i < x.len() && i < y.len() && x[i] == y[i]
        invariant
            i <= x@.len(),
            i <= y@.len(),
            x@.take(i as int) == y@.take(i as int),
        decreases x.len() - i,
    {
        assert(x@.take(i + 1) =~= x@.take(i as int).push(x@[i as int]));
        assert(y@.take(i + 1) =~= y@.take(i as int).push(y@[i as int]));
        i = i + 1;
    }
    proof {
        lemma_seq_lt_skip(x@, y@, i as int);
    }
    if i == x.len() {
        i < y.len()
    } else if i == y.len() {
        false
    } else {
        x[i] < y[i]
    }
}

/// Values that sort by a two-part text key.
pub trait Keyed: Sized {
    /// The key this value sorts by.
    spec fn key(&self) -> (Seq<char>, Seq<char>);

    /// Whether `self`'s key sorts strictly before `other`'s.
    fn key_less(&self, other: &Self) -> (less: bool)
        ensures
            less == key_lt(self.key(), other.key());
}

impl Keyed for String {
    open spec fn key(&self) -> (Seq<char>, Seq<char>) {
        (self@, Seq::empty())
    }

    fn key_less(&self, other: &Self) -> (less: bool) {
        let less = str_less(self.as_str(), other.as_str());
        proof {
            lemma_seq_lt_irreflexive(Seq::<char>::empty());
        }
        less
    }
}

/// The keys of a sequence, in order.
pub open spec fn keys_of<T: Keyed>(s: Seq<T>) -> Seq<(Seq<char>, Seq<char>)> {
    s.map_values(|x: T| x.key())
}

/// Keys never decrease along `s`.
pub open spec fn sorted_keys(s: Seq<(Seq<char>, Seq<char>)>) -> bool {
    forall|i: int, j: int| 0 <= i < j < s.len() ==> !key_lt(#[trigger] s[j], #[trigger] s[i])
}

/// The elements of `s` whose key is `k`, in order.
pub open spec fn with_key<T: Keyed>(s: Seq<T>, k: (Seq<char>, Seq<char>)) -> Seq<T> {
    s.filter(|x: T| x.key() == k)
}

/// `out` is `input` stably sorted by key: keys never decrease, and the
/// elements of each key keep their order.
pub open spec fn stably_sorted<T: Keyed>(input: Seq<T>, out: Seq<T>) -> bool {
    &&& sorted_keys(keys_of(out))
    &&& forall|k: (Seq<char>, Seq<char>)| #[trigger] with_key(out, k) == with_key(input, k)
}

proof fn lemma_filter_insert_at_end_of_key<T: Keyed>(s: Seq<T>, p: int, x: T)
    requires
        0 <= p <= s.len(),
        forall|m: int| p <= m < s.len() ==> s[m].key() != x.key(),
    ensures
        forall|k: (Seq<char>, Seq<char>)| #[trigger] with_key(s.insert(p, x), k) == if k == x.key() {
            with_key(s, k).push(x)
        } else {
            with_key(s, k)
        },
{
    assert forall|k: (Seq<char>, Seq<char>)| #[trigger] with_key(s.insert(p, x), k) == if k == x.key() {
        with_key(s, k).push(x)
    } else {
        with_key(s, k)
    } by {
        let pred = |e: T| e.key() == k;
        let front = s.take(p);
        let back = s.skip(p);
        assert(s =~= front + back);
        assert(s.insert(p, x) =~= (front + seq![x]) + back);
        Seq::filter_distributes_over_add(front + seq![x], back, pred);
        Seq::filter_distributes_over_add(front, seq![x], pred);
        Seq::filter_distributes_over_add(front, back, pred);
        reveal_with_fuel(Seq::<_>::filter, 2);
        assert(seq![x].drop_last() =~= Seq::<T>::empty());
        if k == x.key() {
            assert(back.filter(pred).len() == 0) by {
                if back.filter(pred).len() > 0 {
                    back.lemma_filter_pred(pred, 0);
                    assert(back.filter(pred).contains(back.filter(pred)[0]));
                    back.lemma_filter_contains_rev(pred, back.filter(pred)[0]);
                }
            }
            assert(back.filter(pred) =~= Seq::<T>::empty());
            assert(seq![x].filter(pred) =~= seq![x]);
            assert(with_key(s.insert(p, x), k) =~= with_key(s, k).push(x));
        } else {
            assert(seq![x].filter(pred) =~= Seq::<T>::empty());
            assert(with_key(s.insert(p, x), k) =~= with_key(s, k));
        }
    }
}

/// `input` stably sorted by key.
pub fn sort_by_key<T: Keyed>(input: Vec<T>) -> (out: Vec<T>)
    ensures
        stably_sorted(input@, out@),
        out@.to_multiset() == input@.to_multiset(),
{
    let ghost given = input@;
    let mut rest = input;
    let mut out: Vec<T> = Vec::new();
    let ghost mut taken: int = 0;
    proof {
        assert forall|k: (Seq<char>, Seq<char>)| #[trigger] with_key(out@, k) == with_key(given.take(0), k) by {
            reveal_with_fuel(Seq::<_>::filter, 1);
            assert(given.take(0) =~= Seq::<T>::empty());
            assert(out@ =~= Seq::<T>::empty());
        }
        assert(given.take(0) =~= out@);
    }
    while rest.len() > 0
        invariant
            0 <= taken <= given.len(),
            rest@ == given.skip(taken),
            sorted_keys(keys_of(out@)),
            forall|k: (Seq<char>, Seq<char>)| #[trigger] with_key(out@, k) == with_key(given.take(taken), k),
            out@.to_multiset() == given.take(taken).to_multiset(),
        decreases rest.len(),
    {
        let x = rest.remove(0);
        let ghost xs = given.take(taken + 1);
        proof {
            assert(xs.drop_last() =~= given.take(taken));
            assert(xs.last() == x);
            assert(rest@ =~= given.skip(taken + 1));
        }
        let mut p: usize = 0;
        while p < out.len() && !x.key_less(&out[p])
            invariant
                p <= out@.len(),
                forall|m: int| 0 <= m < p ==> !key_lt(x.key(), #[trigger] out@[m].key()),
            decreases out.len() - p,
        {
            p = p + 1;
        }
        let ghost before = out@;
        proof {
            assert forall|m: int| p <= m < before.len() implies before[m].key() != x.key() && key_lt(x.key(), #[trigger] before[m].key()) by {
                assert(key_lt(x.key(), before[p as int].key()));
                if m > p {
                    assert(keys_of(before)[p as int] == before[p as int].key());
                    assert(keys_of(before)[m] == before[m].key());
                    assert(!key_lt(before[m].key(), before[p as int].key()));
                    lemma_key_lt_total(before[m].key(), before[p as int].key());
                    if before[m].key() != before[p as int].key() {
                        lemma_key_lt_transitive(x.key(), before[p as int].key(), before[m].key());
                    }
                }
                lemma_key_lt_irreflexive(x.key());
            }
            lemma_filter_insert_at_end_of_key(before, p as int, x);
        }
        out.insert(p, x);
        proof {
            let after = out@;
            assert(after =~= before.insert(p as int, x));
            vstd::seq_lib::to_multiset_insert(before, p as int, x);
            vstd::seq_lib::to_multiset_build(given.take(taken), x);
            assert(xs =~= given.take(taken).push(x));
            assert forall|i: int, j: int| 0 <= i < j < after.len() implies !key_lt(
                #[trigger] keys_of(after)[j],
                #[trigger] keys_of(after)[i],
            ) by {
                assert(keys_of(after)[i] == after[i].key());
                assert(keys_of(after)[j] == after[j].key());
                if i < p && j == p {
                    assert(after[i] == before[i]);
                    lemma_key_lt_total(x.key(), before[i].key());
                    lemma_key_lt_asymmetric(before[i].key(), x.key());
                } else if i == p && j > p {
                    assert(after[j] == before[j - 1]);
                    lemma_key_lt_asymmetric(x.key(), before[j - 1].key());
                } else if i < p && j > p {
                    assert(after[i] == before[i] && after[j] == before[j - 1]);
                    assert(keys_of(before)[i] == before[i].key());
                    assert(keys_of(before)[j - 1] == before[j - 1].key());
                } else if j < p {
                    assert(after[i] == before[i] && after[j] == before[j]);
                    assert(keys_of(before)[i] == before[i].key());
                    assert(keys_of(before)[j] == before[j].key());
                } else {
                    assert(after[i] == before[i - 1] && after[j] == before[j - 1]);
                    assert(keys_of(before)[i - 1] == before[i - 1].key());
                    assert(keys_of(before)[j - 1] == before[j - 1].key());
                }
            }
            assert forall|k: (Seq<char>, Seq<char>)| #[trigger] with_key(out@, k) == with_key(xs, k) by {
                let pred = |e: T| e.key() == k;
                reveal_with_fuel(Seq::<_>::filter, 1);
                assert(with_key(xs, k) == (if pred(xs.last()) {
                    with_key(given.take(taken), k).push(x)
                } else {
                    with_key(given.take(taken), k)
                }));
            }
            taken = taken + 1;
        }
    }
    proof {
        assert(given.skip(taken).len() == 0);
        assert(given.take(taken) =~= given);
    }
    out
}


/// `Vec::dedup`: each run of equal neighbours kept once.
pub open spec fn dedup_seq(s: Seq<Seq<char>>) -> Seq<Seq<char>>
    decreases s.len(),
{
    if s.len() <= 1 {
        s
    } else if s.last() == s[s.len() - 2] {
        dedup_seq(s.drop_last())
    } else {
        dedup_seq(s.drop_last()).push(s.last())
    }
}

/// The texts of a list of strings.
pub open spec fn views(v: Seq<String>) -> Seq<Seq<char>> {
    v.map_values(|s: String| s@)
}

/// `v` with each run of equal neighbours kept once.
pub fn dedup_strings(v: Vec<String>) -> (out: Vec<String>)
    ensures
        views(out@) == dedup_seq(views(v@)),
{
    let ghost all = views(v@);
    let mut out: Vec<String> = Vec::new();
    let mut i: usize = 0;
    while i < v.len()
        invariant
            i <= v@.len(),
            all == views(v@),
            views(out@) == dedup_seq(all.take(i as int)),
            i > 0 ==> out@.len() > 0 && out@.last()@ == all[i - 1],
        decreases v.len() - i,
    {
        let ghost next = all.take(i + 1);
        proof {
            assert(next.drop_last() =~= all.take(i as int));
            assert(next.last() == v@[i as int]@);
            if i > 0 {
                assert(next[next.len() - 2] == all[i - 1]);
            }
        }
        let repeat = if out.len() > 0 {
            let last = out.len() - 1;
            crate::textutil::str_eq(out[last].as_str(), v[i].as_str())
        } else {
            false
        };
        if !repeat {
            out.push(v[i].clone());
            proof {
                if i == 0 {
                    assert(next =~= seq![all[0]]);
                    assert(views(out@) =~= next);
                } else {
                    assert(views(out@) =~= dedup_seq(all.take(i as int)).push(all[i as int]));
                }
            }
        }
        i = i + 1;
    }
    assert(all.take(i as int) =~= all);
    out
}


/// Texts never decrease along `s`.
pub open spec fn texts_sorted(s: Seq<Seq<char>>) -> bool {
    forall|i: int, j: int| 0 <= i < j < s.len() ==> !seq_lt(#[trigger] s[j], #[trigger] s[i])
}

/// Whether a text is `x`.
pub open spec fn same_as(x: Seq<char>) -> spec_fn(Seq<char>) -> bool {
    |y: Seq<char>| y == x
}

/// Whether a text is anything but `x`.
pub open spec fn other_than(x: Seq<char>) -> spec_fn(Seq<char>) -> bool {
    |y: Seq<char>| y != x
}

/// The occurrences of `x` in `s`.
pub open spec fn copies_of(s: Seq<Seq<char>>, x: Seq<char>) -> Seq<Seq<char>> {
    s.filter(same_as(x))
}

/// `out` is `items` in sorted order: sorted, and every text occurs in both
/// equally often.
pub open spec fn sorted_texts(items: Seq<Seq<char>>, out: Seq<Seq<char>>) -> bool {
    &&& texts_sorted(out)
    &&& forall|x: Seq<char>| #[trigger] copies_of(out, x) == copies_of(items, x)
}

proof fn lemma_views_with_key(v: Seq<String>, x: Seq<char>)
    ensures
        views(with_key(v, (x, Seq::<char>::empty()))) == copies_of(views(v), x),
    decreases v.len(),
{
    reveal_with_fuel(Seq::<_>::filter, 1);
    if v.len() > 0 {
        lemma_views_with_key(v.drop_last(), x);
        assert(views(v).drop_last() =~= views(v.drop_last()));
        assert(views(v).last() == v.last()@);
        let f = with_key(v.drop_last(), (x, Seq::<char>::empty()));
        if v.last()@ == x {
            assert(views(f.push(v.last())) =~= views(f).push(v.last()@));
        }
    } else {
        assert(views(v) =~= Seq::<Seq<char>>::empty());
    }
}

/// The texts of `v`, sorted.
pub fn sort_texts(v: Vec<String>) -> (out: Vec<String>)
    ensures
        sorted_texts(views(v@), views(out@)),
{
    let ghost input = v@;
    let out = sort_by_key(v);
    proof {
        assert forall|i: int, j: int| 0 <= i < j < views(out@).len() implies !seq_lt(
            #[trigger] views(out@)[j],
            #[trigger] views(out@)[i],
        ) by {
            assert(keys_of(out@)[i] == out@[i].key());
            assert(keys_of(out@)[j] == out@[j].key());
            assert(!key_lt(keys_of(out@)[j], keys_of(out@)[i]));
        }
        assert forall|x: Seq<char>| #[trigger] copies_of(views(out@), x) == copies_of(views(input), x) by {
            lemma_views_with_key(out@, x);
            lemma_views_with_key(input, x);
            assert(with_key(out@, (x, Seq::<char>::empty())) == with_key(input, (x, Seq::<char>::empty())));
        }
    }
    out
}

} // verus!
