//! The convert page's route list: the runtime's ranking, or deepest first,
//! and the selected route found again by what it is rather than where it
//! stood.

use vstd::prelude::*;
use crate::order::views;
use crate::textutil::str_eq;

verus! {

/// One priced route, as far as the list reads it.
pub struct RouteQuote {
    /// The currencies the route passes through, in order.
    pub route_asset_ids: Vec<String>,
    /// How much input the book can take at this rate, when known.
    pub fillable_input: Option<u64>,
}

/// The depth a route sorts by: what it can take, nothing counting as zero.
pub open spec fn depth(q: RouteQuote) -> int {
    match q.fillable_input {
        Some(v) => v as int,
        None => 0,
    }
}

/// The routes of `s` with depth `d`, in order.
pub open spec fn with_depth(s: Seq<RouteQuote>, d: int) -> Seq<RouteQuote> {
    s.filter(|q: RouteQuote| depth(q) == d)
}

/// `out` is `input` deepest first, routes of equal depth keeping their
/// order (a stable sort).
pub open spec fn deepest_first(input: Seq<RouteQuote>, out: Seq<RouteQuote>) -> bool {
    &&& forall|i: int, j: int| 0 <= i < j < out.len() ==> depth(#[trigger] out[j]) <= depth(#[trigger] out[i])
    &&& forall|d: int| #[trigger] with_depth(out, d) == with_depth(input, d)
}

proof fn lemma_insert_at_end_of_depth(s: Seq<RouteQuote>, p: int, x: RouteQuote)
    requires
        0 <= p <= s.len(),
        forall|m: int| p <= m < s.len() ==> depth(#[trigger] s[m]) != depth(x),
    ensures
        forall|d: int| #[trigger] with_depth(s.insert(p, x), d) == if d == depth(x) {
            with_depth(s, d).push(x)
        } else {
            with_depth(s, d)
        },
{
    assert forall|d: int| #[trigger] with_depth(s.insert(p, x), d) == if d == depth(x) {
        with_depth(s, d).push(x)
    } else {
        with_depth(s, d)
    } by {
        let pred = |q: RouteQuote| depth(q) == d;
        let front = s.take(p);
        let back = s.skip(p);
        assert(s =~= front + back);
        assert(s.insert(p, x) =~= (front + seq![x]) + back);
        Seq::filter_distributes_over_add(front + seq![x], back, pred);
        Seq::filter_distributes_over_add(front, seq![x], pred);
        Seq::filter_distributes_over_add(front, back, pred);
        reveal_with_fuel(Seq::<_>::filter, 2);
        assert(seq![x].drop_last() =~= Seq::<RouteQuote>::empty());
        if d == depth(x) {
            assert(back.filter(pred).len() == 0) by {
                if back.filter(pred).len() > 0 {
                    back.lemma_filter_pred(pred, 0);
                    assert(back.filter(pred).contains(back.filter(pred)[0]));
                    back.lemma_filter_contains_rev(pred, back.filter(pred)[0]);
                    let m = choose|m: int| 0 <= m < back.len() && back[m] == back.filter(pred)[0];
                    assert(s[p + m] == back[m]);
                }
            }
            assert(back.filter(pred) =~= Seq::<RouteQuote>::empty());
            assert(seq![x].filter(pred) =~= seq![x]);
            assert(with_depth(s.insert(p, x), d) =~= with_depth(s, d).push(x));
        } else {
            assert(seq![x].filter(pred) =~= Seq::<RouteQuote>::empty());
            assert(with_depth(s.insert(p, x), d) =~= with_depth(s, d));
        }
    }
}

fn depth_of(q: &RouteQuote) -> (d: u64)
    ensures
        d == depth(*q),
{
    match q.fillable_input {
        Some(v) => v,
        None => 0,
    }
}

/// The routes as the table lists them: the runtime's ranking, or, with
/// `by_depth`, deepest first with ties kept in ranking order. The best rate
/// often cannot be filled, so both orders are offered; either way every
/// route is listed, none twice (ordering never hides a row).
pub fn sorted_quotes(quotes: Vec<RouteQuote>, by_depth: bool) -> (out: Vec<RouteQuote>)
    ensures
        !by_depth ==> out@ == quotes@,
        by_depth ==> deepest_first(quotes@, out@),
        out@.to_multiset() == quotes@.to_multiset(),
{
    if !by_depth {
        return quotes;
    }
    let ghost given = quotes@;
    let mut rest = quotes;
    let mut out: Vec<RouteQuote> = Vec::new();
    let ghost mut taken: int = 0;
    proof {
        assert forall|d: int| #[trigger] with_depth(out@, d) == with_depth(given.take(0), d) by {
            reveal_with_fuel(Seq::<_>::filter, 1);
            assert(given.take(0) =~= Seq::<RouteQuote>::empty());
            assert(out@ =~= Seq::<RouteQuote>::empty());
        }
        assert(given.take(0) =~= out@);
    }
    while rest.len() > 0
        invariant
            0 <= taken <= given.len(),
            rest@ == given.skip(taken),
            forall|i: int, j: int| 0 <= i < j < out@.len() ==> depth(#[trigger] out@[j]) <= depth(#[trigger] out@[i]),
            forall|d: int| #[trigger] with_depth(out@, d) == with_depth(given.take(taken), d),
            out@.to_multiset() == given.take(taken).to_multiset(),
        decreases rest.len(),
    {
        let x = rest.remove(0);
        let ghost xs = given.take(taken + 1);
        proof {
            assert(xs.drop_last() =~= given.take(taken));
            assert(xs.last() == x);
            assert(rest@ =~= given.skip(taken + 1));
        }
        let dx = depth_of(&x);
        let mut p: usize = 0;
        while p < out.len() && depth_of(&out[p]) >= dx
            invariant
                p <= out@.len(),
                dx == depth(x),
                forall|m: int| 0 <= m < p ==> depth(#[trigger] out@[m]) >= depth(x),
            decreases out.len() - p,
        {
            p = p + 1;
        }
        let ghost before = out@;
        proof {
            assert forall|m: int| p <= m < before.len() implies depth(#[trigger] before[m]) < depth(x) by {
                assert(depth(before[p as int]) < depth(x));
                if m > p {
                    assert(depth(before[m]) <= depth(before[p as int]));
                }
            }
            lemma_insert_at_end_of_depth(before, p as int, x);
        }
        out.insert(p, x);
        proof {
            let after = out@;
            assert(after =~= before.insert(p as int, x));
            vstd::seq_lib::to_multiset_insert(before, p as int, x);
            vstd::seq_lib::to_multiset_build(given.take(taken), x);
            assert(xs =~= given.take(taken).push(x));
            assert forall|i: int, j: int| 0 <= i < j < after.len() implies depth(#[trigger] after[j]) <= depth(#[trigger] after[i]) by {
                if i < p && j == p {
                    assert(after[i] == before[i]);
                } else if i == p && j > p {
                    assert(after[j] == before[j - 1]);
                } else if i < p && j > p {
                    assert(after[i] == before[i] && after[j] == before[j - 1]);
                } else if j < p {
                    assert(after[i] == before[i] && after[j] == before[j]);
                } else {
                    assert(after[i] == before[i - 1] && after[j] == before[j - 1]);
                }
            }
            assert forall|d: int| #[trigger] with_depth(after, d) == with_depth(xs, d) by {
                reveal_with_fuel(Seq::<_>::filter, 1);
                assert(with_depth(xs, d) == if depth(x) == d {
                    with_depth(given.take(taken), d).push(x)
                } else {
                    with_depth(given.take(taken), d)
                });
            }
            taken = taken + 1;
        }
    }
    assert(given.take(taken) =~= given);
    out
}

/// Whether a route passes through exactly `wanted`, in order.
pub open spec fn is_route(q: RouteQuote, wanted: Seq<Seq<char>>) -> bool {
    views(q.route_asset_ids@) == wanted
}

fn same_path(path: &Vec<String>, wanted: &Vec<String>) -> (same: bool)
    ensures
        same == (views(path@) == views(wanted@)),
{
    if path.len() != wanted.len() {
        proof {
            if views(path@) == views(wanted@) {
                assert(views(path@).len() == path@.len());
            }
        }
        return false;
    }
    let mut i: usize = 0;
    while i < path.len()
        invariant
            i <= path@.len(),
            path@.len() == wanted@.len(),
            forall|k: int| 0 <= k < i ==> path@[k]@ == wanted@[k]@,
        decreases path.len() - i,
    {
        if !str_eq(path[i].as_str(), wanted[i].as_str()) {
            proof {
                if views(path@) == views(wanted@) {
                    assert(views(path@)[i as int] == views(wanted@)[i as int]);
                }
            }
            return false;
        }
        i = i + 1;
    }
    assert(views(path@) =~= views(wanted@));
    true
}

/// Where the selected route stands in `quotes`: the first route through
/// exactly the remembered currencies, so a re-sort keeps the selection on
/// the same route. `None` when nothing is selected or no route matches.
pub fn selected_quote(quotes: &[RouteQuote], selected: Option<&Vec<String>>) -> (at: Option<usize>)
    ensures
        selected is None ==> at is None,
        selected is Some ==> match at {
            Some(i) => {
                &&& i < quotes@.len()
                &&& is_route(quotes@[i as int], views(selected.unwrap()@))
                &&& forall|j: int| 0 <= j < i ==> !is_route(#[trigger] quotes@[j], views(selected.unwrap()@))
            },
            None => forall|j: int| 0 <= j < quotes@.len() ==> !is_route(#[trigger] quotes@[j], views(selected.unwrap()@)),
        },
        match (at, selected) {
            (Some(i), Some(wanted)) => {
                &&& quotes@[i as int].route_asset_ids@.len() == wanted@.len()
                &&& forall|k: int| 0 <= k < wanted@.len() ==> #[trigger] quotes@[i as int].route_asset_ids@[k]@ == wanted@[k]@
            },
            _ => true,
        },
{
    let wanted = match selected {
        Some(w) => w,
        None => return None,
    };
    let mut i: usize = 0;
    while i < quotes.len()
        invariant
            i <= quotes@.len(),
            selected == Some(wanted),
            forall|j: int| 0 <= j < i ==> !is_route(#[trigger] quotes@[j], views(wanted@)),
        decreases quotes.len() - i,
    {
        if same_path(&quotes[i].route_asset_ids, wanted) {
            proof {
                law_a_route_is_its_exact_path(quotes@[i as int], wanted@);
            }
            return Some(i);
        }
        i = i + 1;
    }
    None
}

/// A route is the selected one exactly when it passes through the same
/// currencies, one for one and in the same order: same length, and equal
/// at every position.
pub proof fn law_a_route_is_its_exact_path(q: RouteQuote, wanted: Seq<String>)
    ensures
        is_route(q, views(wanted)) <==> (q.route_asset_ids@.len() == wanted.len()
            && forall|k: int| 0 <= k < wanted.len() ==> #[trigger] q.route_asset_ids@[k]@ == wanted[k]@),
{
    let a = views(q.route_asset_ids@);
    let b = views(wanted);
    if is_route(q, b) {
        assert(a.len() == q.route_asset_ids@.len());
        assert forall|k: int| 0 <= k < wanted.len() implies #[trigger] q.route_asset_ids@[k]@ == wanted[k]@ by {
            assert(a[k] == b[k]);
        }
    }
    if q.route_asset_ids@.len() == wanted.len()
        && forall|k: int| 0 <= k < wanted.len() ==> #[trigger] q.route_asset_ids@[k]@ == wanted[k]@ {
        assert(a =~= b);
    }
}

} // verus!
