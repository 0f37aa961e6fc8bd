//! The watch-list page's counts: which valuation rows are drawn once the
//! hidden ones are left out, and how much of the focus set is covered.

use vstd::prelude::*;
use crate::order::views;
use crate::textutil::str_eq;

verus! {

/// Whether `text` is one of `list`.
fn listed(list: &Vec<String>, text: &str) -> (found: bool)
    ensures
        found == views(list@).contains(text@),
{
    let mut i: usize = 0;
    while i < list.len()
        invariant
            i <= list@.len(),
            forall|k: int| 0 <= k < i ==> list@[k]@ != text@,
        decreases list.len() - i,
    {
        if str_eq(list[i].as_str(), text) {
            assert(views(list@)[i as int] == text@);
            return true;
        }
        i = i + 1;
    }
    proof {
        if views(list@).contains(text@) {
            let k = choose|k: int| 0 <= k < views(list@).len() && views(list@)[k] == text@;
            assert(views(list@)[k] == list@[k]@);
        }
    }
    false
}

/// The rows drawn, by position, and how many were left out: a row is left
/// out when its currency is hidden. The drawn positions come in order.
pub fn visible_rows(assets: &[String], hidden: &Vec<String>) -> (rows: (Vec<usize>, usize))
    ensures
        rows.1 == assets@.len() - rows.0@.len(),
        forall|k: int| 0 <= k < rows.0@.len() ==> {
            &&& (#[trigger] rows.0@[k] as int) < assets@.len()
            &&& !views(hidden@).contains(assets@[rows.0@[k] as int]@)
        },
        forall|j: int, k: int| 0 <= j < k < rows.0@.len() ==> #[trigger] rows.0@[j] < #[trigger] rows.0@[k],
        forall|i: int| 0 <= i < assets@.len() && !views(hidden@).contains(#[trigger] assets@[i]@)
            ==> rows.0@.contains(i as usize),
{
    let mut shown: Vec<usize> = Vec::new();
    let mut left_out: usize = 0;
    let mut i: usize = 0;
    while i < assets.len()
        invariant
            i <= assets@.len(),
            left_out + shown@.len() == i,
            forall|k: int| 0 <= k < shown@.len() ==> {
                &&& (#[trigger] shown@[k] as int) < i
                &&& !views(hidden@).contains(assets@[shown@[k] as int]@)
            },
            forall|j: int, k: int| 0 <= j < k < shown@.len() ==> #[trigger] shown@[j] < #[trigger] shown@[k],
            forall|m: int| 0 <= m < i && !views(hidden@).contains(#[trigger] assets@[m]@) ==> shown@.contains(m as usize),
        decreases assets.len() - i,
    {
        if listed(hidden, assets[i].as_str()) {
            left_out = left_out + 1;
        } else {
            let ghost before = shown@;
            shown.push(i);
            proof {
                assert forall|m: int| 0 <= m < i + 1 && !views(hidden@).contains(#[trigger] assets@[m]@) implies shown@.contains(m as usize) by {
                    if m < i {
                        let k = choose|k: int| 0 <= k < before.len() && before[k] == m as usize;
                        assert(shown@[k] == m as usize);
                    } else {
                        assert(shown@[before.len() as int] == i);
                    }
                }
            }
        }
        i = i + 1;
    }
    (shown, left_out)
}

/// How many of `complete` are true.
pub open spec fn complete_count(complete: Seq<bool>) -> nat
    decreases complete.len(),
{
    if complete.len() == 0 {
        0
    } else {
        complete_count(complete.drop_last()) + if complete.last() { 1nat } else { 0nat }
    }
}

proof fn lemma_complete_count_bounded(complete: Seq<bool>)
    ensures
        complete_count(complete) <= complete.len(),
    decreases complete.len(),
{
    if complete.len() > 0 {
        lemma_complete_count_bounded(complete.drop_last());
    }
}

/// The coverage header's `62/74`: how many focus pairs are complete, out of
/// how many, given whether each entry is complete.
pub fn coverage_totals(complete: &[bool]) -> (totals: (usize, usize))
    ensures
        totals.0 == complete_count(complete@),
        totals.1 == complete@.len(),
        totals.0 <= totals.1,
{
    let mut done: usize = 0;
    let mut i: usize = 0;
    while i < complete.len()
        invariant
            i <= complete@.len(),
            done == complete_count(complete@.take(i as int)),
            done <= i,
        decreases complete.len() - i,
    {
        proof {
            assert(complete@.take(i + 1).drop_last() =~= complete@.take(i as int));
        }
        if complete[i] {
            done = done + 1;
        }
        i = i + 1;
    }
    assert(complete@.take(i as int) =~= complete@);
    proof {
        lemma_complete_count_bounded(complete@);
    }
    (done, complete.len())
}

} // verus!
