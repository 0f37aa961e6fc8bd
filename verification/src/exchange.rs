//! The exchange page's decisions: what an empty table says, which rows get
//! the surge chip, and when the reconcile band warns.

use vstd::prelude::*;

verus! {

/// The most rows the table draws.
pub const EXCHANGE_ROW_LIMIT: usize = 200;

/// The most reconciled pairs the band lists.
pub const RECONCILE_LIMIT: usize = 6;

/// What the table shows in place of rows.
#[derive(Clone, Copy, Debug, PartialEq, Eq, Structural)]
pub enum ExchangeEmpty {
    /// There are rows; nothing in their place.
    Rows,
    /// No rows yet and the sync is more than an hour behind: wait.
    Backfilling,
    /// No rows and the sync is current: there is no data to show.
    NoData,
}

/// What an empty table says: backfilling ("wait a moment") while the sync
/// is more than an hour behind, no data ("go and check") otherwise.
pub fn exchange_empty_state(hours_behind: u64, has_rows: bool) -> (s: ExchangeEmpty)
    ensures
        s == (if has_rows {
            ExchangeEmpty::Rows
        } else if hours_behind > 1 {
            ExchangeEmpty::Backfilling
        } else {
            ExchangeEmpty::NoData
        }),
{
    if has_rows {
        ExchangeEmpty::Rows
    } else if hours_behind > 1 {
        ExchangeEmpty::Backfilling
    } else {
        ExchangeEmpty::NoData
    }
}

/// Whether a row's volume surge earns the chip: at least twice its own
/// usual volume (200 %), so not every row lights up.
pub fn surge_chip(percent: u64) -> (b: bool)
    ensures
        b == (percent >= 200),
{
    percent >= 200
}

/// Whether the reconcile band warns for weak agreement: there were samples
/// and fewer than 80 % of them were hits.
pub fn reconcile_weak(hits: u64, samples: u64) -> (b: bool)
    ensures
        b == (samples > 0 && hits * 100 < samples * 80),
{
    samples > 0 && (hits as u128) * 100 < (samples as u128) * 80
}

/// Whether a row's hourly volume is drawn: not when the page looks back at
/// a past day, which has no live volume (a dash is drawn instead).
pub fn shows_volume(historical: bool) -> (b: bool)
    ensures
        b == !historical,
{
    !historical
}

} // verus!
