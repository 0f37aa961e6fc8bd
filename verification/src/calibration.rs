//! The calibration page's progress band: how many of the screen regions
//! are framed by hand, and which one to ask for next.

use vstd::prelude::*;

verus! {

/// The first region, in page order, not framed yet; `None` when all are.
/// Its name is the band's "still missing" line.
pub fn first_missing(framed: &[bool]) -> (i: Option<usize>)
    ensures
        match i {
            Some(k) => k < framed@.len() && !framed@[k as int]
                && forall|j: int| 0 <= j < k ==> framed@[j],
            None => forall|j: int| 0 <= j < framed@.len() ==> framed@[j],
        },
{
    let mut k: usize = 0;
    while k < framed.len()
        invariant
            k <= framed@.len(),
            forall|j: int| 0 <= j < k ==> framed@[j],
        decreases framed.len() - k,
    {
        if !framed[k] {
            return Some(k);
        }
        k = k + 1;
    }
    None
}

} // verus!
