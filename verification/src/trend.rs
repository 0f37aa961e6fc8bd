//! The analytics page's trend column: a curve only when the baseline has
//! the days to draw one, bars and a count of missing days otherwise, and
//! colour only for moves past the flat band.

use vstd::prelude::*;
use crate::palette::Token;

verus! {

/// Within this many basis points either way a trend reads as flat: half
/// the rows sit here, and colouring them all would leave nothing standing
/// out.
pub const FLAT_BAND_BASIS_POINTS: i64 = 200;

/// The line, fill and figure slots of a trend that moved `relative` basis
/// points: accent when it rose past the band, brick when it fell past it,
/// greys when flat.
pub open spec fn trend_colours(relative: i64) -> (Token, Token, Token) {
    if relative >= FLAT_BAND_BASIS_POINTS {
        (Token::Accent, Token::AccentFill, Token::AccentText)
    } else if relative <= -FLAT_BAND_BASIS_POINTS {
        (Token::Danger, Token::DangerWash, Token::DangerText)
    } else {
        (Token::TextDisabled, Token::TrendFlatFill, Token::TextMeta)
    }
}

/// How many of `denominators` are not zero: the days that price.
pub open spec fn priced_days(denominators: Seq<u64>) -> nat
    decreases denominators.len(),
{
    if denominators.len() == 0 {
        0
    } else {
        priced_days(denominators.drop_last()) + if denominators.last() != 0 { 1nat } else { 0nat }
    }
}

/// The last `days` entries of `s` (all of them when there are fewer).
pub open spec fn last_days(s: Seq<u64>, days: nat) -> Seq<u64> {
    if s.len() <= days { s } else { s.skip(s.len() - days) }
}

/// What the trend cell shows.
#[derive(Clone, Copy, Debug, PartialEq, Eq, Structural)]
pub enum TrendCell {
    /// The anchor against itself is a constant; a flat line would mislead.
    AnchorConstant,
    /// Fewer than two days price: only the count of days still missing.
    DaysShort { missing: u64 },
    /// Some days price but the baseline is not full: one bar per day and
    /// the count still missing, never a made-up curve.
    Bars { missing: u64 },
    /// A full baseline: the curve, in the trend's colours.
    Curve { line: Token, fill: Token, figure: Token },
}

/// The cell for one row: `denominators` are the row's daily rates' lower
/// terms, oldest first (a zero does not price); the baseline's last
/// `baseline_days` of them are drawn.
pub open spec fn trend_cell_of(is_anchor: bool, baseline_days: u64, denominators: Seq<u64>, relative: Option<i64>) -> TrendCell {
    let points = priced_days(last_days(denominators, baseline_days as nat));
    let missing = if points >= baseline_days { 0 } else { (baseline_days - points) as u64 };
    if is_anchor {
        TrendCell::AnchorConstant
    } else if points < 2 {
        TrendCell::DaysShort { missing }
    } else if missing > 0 {
        TrendCell::Bars { missing }
    } else {
        let colours = trend_colours(match relative { Some(r) => r, None => 0 });
        TrendCell::Curve { line: colours.0, fill: colours.1, figure: colours.2 }
    }
}

proof fn lemma_priced_days_bounded(s: Seq<u64>)
    ensures
        priced_days(s) <= s.len(),
    decreases s.len(),
{
    if s.len() > 0 {
        lemma_priced_days_bounded(s.drop_last());
    }
}

/// What the trend cell of a row shows.
pub fn trend_cell(is_anchor: bool, baseline_days: u64, denominators: &[u64], relative: Option<i64>) -> (cell: TrendCell)
    ensures
        cell == trend_cell_of(is_anchor, baseline_days, denominators@, relative),
        cell is Curve ==> {
            &&& !is_anchor
            &&& baseline_days >= 2
            &&& denominators@.len() >= baseline_days
            &&& forall|i: int| denominators@.len() - baseline_days <= i < denominators@.len() ==> #[trigger] denominators@[i] != 0
        },
{
    proof {
        if trend_cell_of(is_anchor, baseline_days, denominators@, relative) is Curve {
            law_a_curve_needs_a_full_baseline(is_anchor, baseline_days, denominators@, relative);
        }
    }
    if is_anchor {
        return TrendCell::AnchorConstant;
    }
    let n = denominators.len();
    let start: usize = if (n as u64) <= baseline_days { 0 } else { n - baseline_days as usize };
    let ghost window = last_days(denominators@, baseline_days as nat);
    proof {
        assert(window =~= denominators@.subrange(start as int, n as int));
    }
    let mut points: u64 = 0;
    let mut i: usize = start;
    while i < n
        invariant
            start <= i <= n == denominators@.len(),
            window == denominators@.subrange(start as int, n as int),
            points == priced_days(denominators@.subrange(start as int, i as int)),
            points <= i - start,
        decreases n - i,
    {
        proof {
            assert(denominators@.subrange(start as int, i + 1).drop_last() =~= denominators@.subrange(start as int, i as int));
        }
        if denominators[i] != 0 {
            points = points + 1;
        }
        i = i + 1;
    }
    let missing: u64 = if points >= baseline_days { 0 } else { baseline_days - points };
    if points < 2 {
        return TrendCell::DaysShort { missing };
    }
    if missing > 0 {
        return TrendCell::Bars { missing };
    }
    let r = match relative {
        Some(r) => r,
        None => 0,
    };
    if r >= FLAT_BAND_BASIS_POINTS {
        TrendCell::Curve { line: Token::Accent, fill: Token::AccentFill, figure: Token::AccentText }
    } else if r <= -FLAT_BAND_BASIS_POINTS {
        TrendCell::Curve { line: Token::Danger, fill: Token::DangerWash, figure: Token::DangerText }
    } else {
        TrendCell::Curve { line: Token::TextDisabled, fill: Token::TrendFlatFill, figure: Token::TextMeta }
    }
}

proof fn lemma_all_priced(s: Seq<u64>)
    requires
        priced_days(s) == s.len(),
    ensures
        forall|i: int| 0 <= i < s.len() ==> #[trigger] s[i] != 0,
    decreases s.len(),
{
    if s.len() > 0 {
        lemma_priced_days_bounded(s.drop_last());
        assert(s.last() != 0);
        lemma_all_priced(s.drop_last());
        assert forall|i: int| 0 <= i < s.len() implies #[trigger] s[i] != 0 by {
            if i < s.len() - 1 {
                assert(s.drop_last()[i] == s[i]);
            }
        }
    }
}

/// A curve is drawn only over a full baseline: the row is not the anchor,
/// the baseline holds at least two days, the series reaches back that far,
/// and every one of its last `baseline_days` days prices.
pub proof fn law_a_curve_needs_a_full_baseline(is_anchor: bool, baseline_days: u64, denominators: Seq<u64>, relative: Option<i64>)
    requires
        trend_cell_of(is_anchor, baseline_days, denominators, relative) is Curve,
    ensures
        !is_anchor,
        baseline_days >= 2,
        denominators.len() >= baseline_days,
        forall|i: int| denominators.len() - baseline_days <= i < denominators.len() ==> #[trigger] denominators[i] != 0,
{
    let window = last_days(denominators, baseline_days as nat);
    lemma_priced_days_bounded(window);
    let points = priced_days(window);
    assert(points >= baseline_days);
    assert(window.len() <= baseline_days);
    assert(points == window.len());
    assert(window.len() == baseline_days);
    lemma_all_priced(window);
    assert forall|i: int| denominators.len() - baseline_days <= i < denominators.len() implies #[trigger] denominators[i] != 0 by {
        if denominators.len() > baseline_days {
            assert(window[i - (denominators.len() - baseline_days)] == denominators[i]);
        } else {
            assert(window[i] == denominators[i]);
        }
    }
}

/// The cell reads only the baseline: days before the last `baseline_days`
/// never change it, however many there are.
pub proof fn law_the_cell_reads_only_the_baseline(is_anchor: bool, baseline_days: u64, earlier: Seq<u64>, denominators: Seq<u64>, relative: Option<i64>)
    requires
        denominators.len() >= baseline_days,
    ensures
        trend_cell_of(is_anchor, baseline_days, earlier + denominators, relative)
            == trend_cell_of(is_anchor, baseline_days, denominators, relative),
{
    let all = earlier + denominators;
    assert(last_days(all, baseline_days as nat) =~= last_days(denominators, baseline_days as nat));
}

} // verus!
