//! The market tuning: the numbers the runtime is configured with, the
//! lists that say what is watched, and the editors that change them.
//!
//! The editors decide; writing the settings file is the caller's part. Every
//! editor returns whether the settings now need writing.

use vstd::prelude::*;
use crate::market::FocusChoice;
use crate::numbers::{number, number_of, sizes, sizes_of, trim_text, trimmed};
use crate::order::{copies_of, other_than, same_as, dedup_seq, dedup_strings, sort_by_key, sort_texts, sorted_texts, stably_sorted, views, Keyed, key_lt, str_less, lemma_seq_lt_irreflexive};
use crate::textutil::{decimal, decimal_text, push_decimal, push_str, str_eq, chars_of};

verus! {

/// How old a book may get before it is usable, stale, archived.
pub struct FreshnessTuning {
    pub fresh_seconds: u64,
    pub usable_seconds: u64,
    pub stale_seconds: u64,
    pub capture_skew_seconds: u64,
}

/// The convert page's ladder of amounts and its hop limit.
pub struct ConvertTuning {
    pub sizes: Vec<u64>,
    pub max_hops: u64,
}

/// The radar's scan limits.
pub struct RadarTuning {
    pub max_results: u64,
    pub minimum_profit_basis_points: u64,
    pub max_total_expansions: u64,
}

/// The risk flags' thresholds.
pub struct RiskTuning {
    pub thin_liquidity_stock: u64,
    pub top_book_outlier_factor: u64,
    pub spike_basis_points: u64,
    pub severe_spike_basis_points: u64,
    pub wide_spread_basis_points: u64,
    pub severe_spread_basis_points: u64,
}

/// The analytics page's thresholds.
pub struct AnalyticsTuning {
    pub trend_recent_days: u64,
    pub trend_window_days: u64,
    pub breadth_threshold_percent: u64,
    pub verdict_threshold_bps: u64,
    pub scarce_ratio_percent: u64,
    pub quiet_floor_anchor_units: u64,
    pub thin_norm_percent: u64,
    pub raw_retention_days: u64,
}

/// The exchange page's settings.
pub struct ExchangeTuning {
    /// The league whose exchange history is synced; empty turns syncing off.
    pub league: String,
    /// How many days of history a league is backfilled with.
    pub backfill_days: u64,
    /// How many days hourly rows are kept.
    pub hour_retention_days: u64,
    /// The day the page looks back from, `YYYY-MM-DD`, or empty for now.
    pub as_of_day: String,
}

/// The most days a backfill or a retention box takes. The real limit of a
/// backfill is the season's start; this only keeps absurd values out.
pub const MAX_EXCHANGE_DAYS: u64 = 365;

/// How a day-count box was read.
#[derive(Clone, Copy, Debug, PartialEq, Eq, Structural)]
pub enum DaysNote {
    /// The number as typed.
    Taken,
    /// Above the limit, held to it.
    Clamped,
    /// Not a number; the current value kept.
    Kept,
}

/// The days a box holds, and how it was read: a number above the limit is
/// held to it, anything that is not a number keeps `current`.
pub open spec fn days_reading(raw: Seq<char>, current: u64) -> (u64, DaysNote) {
    match number_of(raw) {
        Some(days) => if days > MAX_EXCHANGE_DAYS {
            (MAX_EXCHANGE_DAYS, DaysNote::Clamped)
        } else {
            (days, DaysNote::Taken)
        },
        None => (current, DaysNote::Kept),
    }
}

/// Reads a day-count box; see `days_reading`.
pub fn read_days(raw: &str, current: u64) -> (reading: (u64, DaysNote))
    ensures
        reading == days_reading(raw@, current),
{
    match number(raw) {
        Some(days) => if days > MAX_EXCHANGE_DAYS {
            (MAX_EXCHANGE_DAYS, DaysNote::Clamped)
        } else {
            (days, DaysNote::Taken)
        },
        None => (current, DaysNote::Kept),
    }
}

/// What saving the exchange boxes did: whether the settings changed (and
/// the sync must restart), and how each day box was read.
#[derive(Clone, Copy, Debug, PartialEq, Eq, Structural)]
pub struct ExchangeSave {
    pub changed: bool,
    pub backfill: DaysNote,
    pub retention: DaysNote,
}

/// A currency the user asked not to be suggested again.
pub struct IgnoredSuggestion {
    pub asset_id: String,
    pub snapshots_when_ignored: u64,
}

/// A pair the user refused.
pub struct IgnoredProbe {
    pub from_asset_id: String,
    pub to_asset_id: String,
}

impl Keyed for IgnoredSuggestion {
    open spec fn key(&self) -> (Seq<char>, Seq<char>) {
        (self.asset_id@, Seq::empty())
    }

    fn key_less(&self, other: &Self) -> (less: bool) {
        proof {
            lemma_seq_lt_irreflexive(Seq::<char>::empty());
        }
        str_less(self.asset_id.as_str(), other.asset_id.as_str())
    }
}

impl Keyed for IgnoredProbe {
    open spec fn key(&self) -> (Seq<char>, Seq<char>) {
        (self.from_asset_id@, self.to_asset_id@)
    }

    fn key_less(&self, other: &Self) -> (less: bool) {
        if str_less(self.from_asset_id.as_str(), other.from_asset_id.as_str()) {
            true
        } else if str_eq(self.from_asset_id.as_str(), other.from_asset_id.as_str()) {
            str_less(self.to_asset_id.as_str(), other.to_asset_id.as_str())
        } else {
            false
        }
    }
}

/// One game's market tuning.
pub struct MarketTuning {
    pub freshness: FreshnessTuning,
    pub convert: ConvertTuning,
    pub radar: RadarTuning,
    pub risk: RiskTuning,
    pub analytics: AnalyticsTuning,
    pub exchange: ExchangeTuning,
    pub report_window_hours: u64,
    /// The currencies everything is priced against.
    pub settlement_assets: Vec<String>,
    /// The settlement currency the valuation is anchored to, if chosen.
    pub anchor_asset: Option<String>,
    /// Whether routes may pass through a focus target.
    pub route_through_targets: bool,
    pub focus_assets: Vec<String>,
    pub bridge_assets: Vec<String>,
    pub watch_only_assets: Vec<String>,
    pub hidden_assets: Vec<String>,
    pub ignored_suggestions: Vec<IgnoredSuggestion>,
    pub ignored_probes: Vec<IgnoredProbe>,
}

/// The tuning boxes' texts, in the order the page draws them.
pub struct TuningInputs {
    pub fresh: String,
    pub usable: String,
    pub stale: String,
    pub skew: String,
    pub sizes: String,
    pub max_hops: String,
    pub max_results: String,
    pub min_basis_points: String,
    pub expansions: String,
    pub thin_stock: String,
    pub outlier_factor: String,
    pub window_hours: String,
    pub trend_recent: String,
    pub trend_window: String,
    pub breadth: String,
    pub verdict_bps: String,
    pub scarce_ratio: String,
    pub quiet_floor: String,
    pub thin_norm: String,
    pub retention_days: String,
    pub spike: String,
    pub severe_spike: String,
    pub wide_spread: String,
    pub severe_spread: String,
}

/// The values a fully valid set of boxes holds.
pub ghost struct TuningValues {
    pub fresh: u64,
    pub usable: u64,
    pub stale: u64,
    pub skew: u64,
    pub sizes: Seq<u64>,
    pub max_hops: u64,
    pub max_results: u64,
    pub min_basis_points: u64,
    pub expansions: u64,
    pub thin_stock: u64,
    pub outlier_factor: u64,
    pub window_hours: u64,
    pub trend_recent: u64,
    pub trend_window: u64,
    pub breadth: u64,
    pub verdict_bps: u64,
    pub scarce_ratio: u64,
    pub quiet_floor: u64,
    pub thin_norm: u64,
    pub retention_days: u64,
    pub spike: u64,
    pub severe_spike: u64,
    pub wide_spread: u64,
    pub severe_spread: u64,
}

/// The relations the runtime insists on: the freshness bands strictly
/// increasing from above zero, limits and windows non-zero, an outlier band
/// of at least two, breadth a percentage from 1 to 100, the scarce ratio at
/// least 100%, the thin norm at most 100%, and each severe threshold at or
/// above its trigger.
pub open spec fn values_acceptable(v: TuningValues) -> bool {
    &&& 0 < v.fresh && v.fresh < v.usable && v.usable < v.stale
    &&& v.max_hops != 0 && v.max_results != 0 && v.window_hours != 0
    &&& v.outlier_factor >= 2
    &&& v.trend_recent != 0 && v.trend_window != 0
    &&& 1 <= v.breadth && v.breadth <= 100
    &&& v.verdict_bps != 0 && v.scarce_ratio >= 100 && v.thin_norm <= 100
    &&& v.spike != 0 && v.severe_spike >= v.spike
    &&& v.wide_spread != 0 && v.severe_spread >= v.wide_spread
}

/// What the boxes hold, when every box holds a writable value and together
/// they are acceptable; `None` otherwise.
pub open spec fn form_values(f: TuningInputs) -> Option<TuningValues> {
    if number_of(f.fresh@) is Some
        && number_of(f.usable@) is Some
        && number_of(f.stale@) is Some
        && number_of(f.skew@) is Some
        && number_of(f.max_hops@) is Some
        && number_of(f.max_results@) is Some
        && number_of(f.min_basis_points@) is Some
        && number_of(f.expansions@) is Some
        && number_of(f.thin_stock@) is Some
        && number_of(f.outlier_factor@) is Some
        && number_of(f.window_hours@) is Some
        && number_of(f.trend_recent@) is Some
        && number_of(f.trend_window@) is Some
        && number_of(f.breadth@) is Some
        && number_of(f.verdict_bps@) is Some
        && number_of(f.scarce_ratio@) is Some
        && number_of(f.quiet_floor@) is Some
        && number_of(f.thin_norm@) is Some
        && number_of(f.retention_days@) is Some
        && number_of(f.spike@) is Some
        && number_of(f.severe_spike@) is Some
        && number_of(f.wide_spread@) is Some
        && number_of(f.severe_spread@) is Some
        && sizes_of(f.sizes@) is Some {
        let v = TuningValues {
            fresh: number_of(f.fresh@).unwrap(),
            usable: number_of(f.usable@).unwrap(),
            stale: number_of(f.stale@).unwrap(),
            skew: number_of(f.skew@).unwrap(),
            sizes: sizes_of(f.sizes@).unwrap(),
            max_hops: number_of(f.max_hops@).unwrap(),
            max_results: number_of(f.max_results@).unwrap(),
            min_basis_points: number_of(f.min_basis_points@).unwrap(),
            expansions: number_of(f.expansions@).unwrap(),
            thin_stock: number_of(f.thin_stock@).unwrap(),
            outlier_factor: number_of(f.outlier_factor@).unwrap(),
            window_hours: number_of(f.window_hours@).unwrap(),
            trend_recent: number_of(f.trend_recent@).unwrap(),
            trend_window: number_of(f.trend_window@).unwrap(),
            breadth: number_of(f.breadth@).unwrap(),
            verdict_bps: number_of(f.verdict_bps@).unwrap(),
            scarce_ratio: number_of(f.scarce_ratio@).unwrap(),
            quiet_floor: number_of(f.quiet_floor@).unwrap(),
            thin_norm: number_of(f.thin_norm@).unwrap(),
            retention_days: number_of(f.retention_days@).unwrap(),
            spike: number_of(f.spike@).unwrap(),
            severe_spike: number_of(f.severe_spike@).unwrap(),
            wide_spread: number_of(f.wide_spread@).unwrap(),
            severe_spread: number_of(f.severe_spread@).unwrap(),
        };
        if values_acceptable(v) { Some(v) } else { None }
    } else {
        None
    }
}

/// The numbers a tuning currently holds.
pub open spec fn values_of(t: MarketTuning) -> TuningValues {
    TuningValues {
        fresh: t.freshness.fresh_seconds,
        usable: t.freshness.usable_seconds,
        stale: t.freshness.stale_seconds,
        skew: t.freshness.capture_skew_seconds,
        sizes: t.convert.sizes@,
        max_hops: t.convert.max_hops,
        max_results: t.radar.max_results,
        min_basis_points: t.radar.minimum_profit_basis_points,
        expansions: t.radar.max_total_expansions,
        thin_stock: t.risk.thin_liquidity_stock,
        outlier_factor: t.risk.top_book_outlier_factor,
        window_hours: t.report_window_hours,
        trend_recent: t.analytics.trend_recent_days,
        trend_window: t.analytics.trend_window_days,
        breadth: t.analytics.breadth_threshold_percent,
        verdict_bps: t.analytics.verdict_threshold_bps,
        scarce_ratio: t.analytics.scarce_ratio_percent,
        quiet_floor: t.analytics.quiet_floor_anchor_units,
        thin_norm: t.analytics.thin_norm_percent,
        retention_days: t.analytics.raw_retention_days,
        spike: t.risk.spike_basis_points,
        severe_spike: t.risk.severe_spike_basis_points,
        wide_spread: t.risk.wide_spread_basis_points,
        severe_spread: t.risk.severe_spread_basis_points,
    }
}

/// `after` is `before` with the numbers replaced by `v` and nothing else
/// touched.
pub open spec fn numbers_written(before: MarketTuning, after: MarketTuning, v: TuningValues) -> bool {
    &&& values_of(after) == v
    &&& after.exchange == before.exchange
    &&& after.settlement_assets == before.settlement_assets
    &&& after.anchor_asset == before.anchor_asset
    &&& after.route_through_targets == before.route_through_targets
    &&& after.focus_assets == before.focus_assets
    &&& after.bridge_assets == before.bridge_assets
    &&& after.watch_only_assets == before.watch_only_assets
    &&& after.hidden_assets == before.hidden_assets
    &&& after.ignored_suggestions == before.ignored_suggestions
    &&& after.ignored_probes == before.ignored_probes
}

/// Whether every box is filled and the freshness bands and the ladder
/// already read as writable.
pub open spec fn form_plausible(f: TuningInputs) -> bool {
    &&& trimmed(f.fresh@).len() > 0
    &&& trimmed(f.usable@).len() > 0
    &&& trimmed(f.stale@).len() > 0
    &&& trimmed(f.skew@).len() > 0
    &&& trimmed(f.sizes@).len() > 0
    &&& trimmed(f.max_hops@).len() > 0
    &&& trimmed(f.max_results@).len() > 0
    &&& trimmed(f.min_basis_points@).len() > 0
    &&& trimmed(f.expansions@).len() > 0
    &&& trimmed(f.thin_stock@).len() > 0
    &&& trimmed(f.outlier_factor@).len() > 0
    &&& trimmed(f.window_hours@).len() > 0
    &&& trimmed(f.trend_recent@).len() > 0
    &&& trimmed(f.trend_window@).len() > 0
    &&& trimmed(f.breadth@).len() > 0
    &&& trimmed(f.verdict_bps@).len() > 0
    &&& trimmed(f.scarce_ratio@).len() > 0
    &&& trimmed(f.quiet_floor@).len() > 0
    &&& trimmed(f.thin_norm@).len() > 0
    &&& trimmed(f.retention_days@).len() > 0
    &&& trimmed(f.spike@).len() > 0
    &&& trimmed(f.severe_spike@).len() > 0
    &&& trimmed(f.wide_spread@).len() > 0
    &&& trimmed(f.severe_spread@).len() > 0
    &&& number_of(f.fresh@) is Some && number_of(f.usable@) is Some && number_of(f.stale@) is Some
    &&& 0 < number_of(f.fresh@).unwrap()
    &&& number_of(f.fresh@).unwrap() < number_of(f.usable@).unwrap()
    &&& number_of(f.usable@).unwrap() < number_of(f.stale@).unwrap()
    &&& sizes_of(f.sizes@) is Some
}

fn blank(text: &str) -> (b: bool)
    ensures
        b == (trimmed(text@).len() == 0),
{
    let chars = chars_of(text);
    let mut i: usize = 0;
    while i < chars.len()
        invariant
            i <= chars@.len(),
            chars@ == text@,
            forall|k: int| 0 <= k < i ==> crate::numbers::is_ws(#[trigger] chars@[k]),
        decreases chars.len() - i,
    {
        if !crate::numbers::is_ws_char(chars[i]) {
            proof { crate::numbers::lemma_trimmed_keeps(chars@, i as int); }
            return false;
        }
        i = i + 1;
    }
    proof { crate::numbers::lemma_all_ws_trims_to_nothing(chars@); }
    true
}

/// Whether every box currently holds something writable: nothing blank,
/// the freshness bands ordered, the ladder readable.
pub fn tuning_is_valid(inputs: &TuningInputs) -> (valid: bool)
    ensures
        valid == form_plausible(*inputs),
{
    if blank(inputs.fresh.as_str()) || blank(inputs.usable.as_str()) || blank(inputs.stale.as_str()) || blank(inputs.skew.as_str()) || blank(inputs.sizes.as_str()) || blank(inputs.max_hops.as_str()) || blank(inputs.max_results.as_str()) || blank(inputs.min_basis_points.as_str()) || blank(inputs.expansions.as_str()) || blank(inputs.thin_stock.as_str()) || blank(inputs.outlier_factor.as_str()) || blank(inputs.window_hours.as_str()) || blank(inputs.trend_recent.as_str()) || blank(inputs.trend_window.as_str()) || blank(inputs.breadth.as_str()) || blank(inputs.verdict_bps.as_str()) || blank(inputs.scarce_ratio.as_str()) || blank(inputs.quiet_floor.as_str()) || blank(inputs.thin_norm.as_str()) || blank(inputs.retention_days.as_str()) || blank(inputs.spike.as_str()) || blank(inputs.severe_spike.as_str()) || blank(inputs.wide_spread.as_str()) || blank(inputs.severe_spread.as_str()) {
        return false;
    }
    let fresh = number(inputs.fresh.as_str());
    let usable = number(inputs.usable.as_str());
    let stale = number(inputs.stale.as_str());
    match (fresh, usable, stale) {
        (Some(fresh), Some(usable), Some(stale)) => {
            0 < fresh && fresh < usable && usable < stale && sizes(inputs.sizes.as_str()).is_some()
        },
        _ => false,
    }
}

/// Reads every box and writes the numbers, if all of them hold a value the
/// runtime would accept. All or nothing: returns whether anything was
/// written, and on `false` the tuning is untouched.
pub fn apply_tuning(tuning: &mut MarketTuning, inputs: &TuningInputs) -> (written: bool)
    ensures
        written == form_values(*inputs) is Some,
        written ==> numbers_written(*old(tuning), *final(tuning), form_values(*inputs).unwrap()),
        !written ==> *final(tuning) == *old(tuning),
        written ==> {
            &&& 0 < final(tuning).freshness.fresh_seconds
            &&& final(tuning).freshness.fresh_seconds < final(tuning).freshness.usable_seconds
            &&& final(tuning).freshness.usable_seconds < final(tuning).freshness.stale_seconds
            &&& final(tuning).risk.spike_basis_points != 0
            &&& final(tuning).risk.severe_spike_basis_points >= final(tuning).risk.spike_basis_points
            &&& final(tuning).risk.wide_spread_basis_points != 0
            &&& final(tuning).risk.severe_spread_basis_points >= final(tuning).risk.wide_spread_basis_points
            &&& final(tuning).convert.max_hops != 0
            &&& final(tuning).radar.max_results != 0
            &&& final(tuning).report_window_hours != 0
            &&& final(tuning).risk.top_book_outlier_factor >= 2
            &&& final(tuning).analytics.trend_recent_days != 0
            &&& final(tuning).analytics.trend_window_days != 0
            &&& 1 <= final(tuning).analytics.breadth_threshold_percent <= 100
            &&& final(tuning).analytics.verdict_threshold_bps != 0
            &&& final(tuning).analytics.scarce_ratio_percent >= 100
            &&& final(tuning).analytics.thin_norm_percent <= 100
            &&& final(tuning).convert.sizes@.len() > 0
        },
        written ==> {
            &&& Some(final(tuning).freshness.fresh_seconds) == number_of(inputs.fresh@)
            &&& Some(final(tuning).freshness.usable_seconds) == number_of(inputs.usable@)
            &&& Some(final(tuning).freshness.stale_seconds) == number_of(inputs.stale@)
            &&& Some(final(tuning).freshness.capture_skew_seconds) == number_of(inputs.skew@)
            &&& Some(final(tuning).convert.max_hops) == number_of(inputs.max_hops@)
            &&& Some(final(tuning).radar.max_results) == number_of(inputs.max_results@)
            &&& Some(final(tuning).radar.minimum_profit_basis_points) == number_of(inputs.min_basis_points@)
            &&& Some(final(tuning).radar.max_total_expansions) == number_of(inputs.expansions@)
            &&& Some(final(tuning).risk.thin_liquidity_stock) == number_of(inputs.thin_stock@)
            &&& Some(final(tuning).risk.top_book_outlier_factor) == number_of(inputs.outlier_factor@)
            &&& Some(final(tuning).report_window_hours) == number_of(inputs.window_hours@)
            &&& Some(final(tuning).analytics.trend_recent_days) == number_of(inputs.trend_recent@)
            &&& Some(final(tuning).analytics.trend_window_days) == number_of(inputs.trend_window@)
            &&& Some(final(tuning).analytics.breadth_threshold_percent) == number_of(inputs.breadth@)
            &&& Some(final(tuning).analytics.verdict_threshold_bps) == number_of(inputs.verdict_bps@)
            &&& Some(final(tuning).analytics.scarce_ratio_percent) == number_of(inputs.scarce_ratio@)
            &&& Some(final(tuning).analytics.quiet_floor_anchor_units) == number_of(inputs.quiet_floor@)
            &&& Some(final(tuning).analytics.thin_norm_percent) == number_of(inputs.thin_norm@)
            &&& Some(final(tuning).analytics.raw_retention_days) == number_of(inputs.retention_days@)
            &&& Some(final(tuning).risk.spike_basis_points) == number_of(inputs.spike@)
            &&& Some(final(tuning).risk.severe_spike_basis_points) == number_of(inputs.severe_spike@)
            &&& Some(final(tuning).risk.wide_spread_basis_points) == number_of(inputs.wide_spread@)
            &&& Some(final(tuning).risk.severe_spread_basis_points) == number_of(inputs.severe_spread@)
            &&& Some(final(tuning).convert.sizes@) == sizes_of(inputs.sizes@)
        },
{
    let fresh = match number(inputs.fresh.as_str()) { Some(v) => v, None => return false };
    let usable = match number(inputs.usable.as_str()) { Some(v) => v, None => return false };
    let stale = match number(inputs.stale.as_str()) { Some(v) => v, None => return false };
    let skew = match number(inputs.skew.as_str()) { Some(v) => v, None => return false };
    let max_hops = match number(inputs.max_hops.as_str()) { Some(v) => v, None => return false };
    let max_results = match number(inputs.max_results.as_str()) { Some(v) => v, None => return false };
    let min_basis_points = match number(inputs.min_basis_points.as_str()) { Some(v) => v, None => return false };
    let expansions = match number(inputs.expansions.as_str()) { Some(v) => v, None => return false };
    let thin_stock = match number(inputs.thin_stock.as_str()) { Some(v) => v, None => return false };
    let outlier_factor = match number(inputs.outlier_factor.as_str()) { Some(v) => v, None => return false };
    let window_hours = match number(inputs.window_hours.as_str()) { Some(v) => v, None => return false };
    let trend_recent = match number(inputs.trend_recent.as_str()) { Some(v) => v, None => return false };
    let trend_window = match number(inputs.trend_window.as_str()) { Some(v) => v, None => return false };
    let breadth = match number(inputs.breadth.as_str()) { Some(v) => v, None => return false };
    let verdict_bps = match number(inputs.verdict_bps.as_str()) { Some(v) => v, None => return false };
    let scarce_ratio = match number(inputs.scarce_ratio.as_str()) { Some(v) => v, None => return false };
    let quiet_floor = match number(inputs.quiet_floor.as_str()) { Some(v) => v, None => return false };
    let thin_norm = match number(inputs.thin_norm.as_str()) { Some(v) => v, None => return false };
    let retention_days = match number(inputs.retention_days.as_str()) { Some(v) => v, None => return false };
    let spike = match number(inputs.spike.as_str()) { Some(v) => v, None => return false };
    let severe_spike = match number(inputs.severe_spike.as_str()) { Some(v) => v, None => return false };
    let wide_spread = match number(inputs.wide_spread.as_str()) { Some(v) => v, None => return false };
    let severe_spread = match number(inputs.severe_spread.as_str()) { Some(v) => v, None => return false };
    let sizes = match sizes(inputs.sizes.as_str()) { Some(v) => v, None => return false };
    if !(0 < fresh && fresh < usable && usable < stale) {
        return false;
    }
    if max_hops == 0 || max_results == 0 || window_hours == 0 {
        return false;
    }
    if outlier_factor < 2 {
        return false;
    }
    if trend_recent == 0 || trend_window == 0 || !(1 <= breadth && breadth <= 100) || verdict_bps == 0
        || scarce_ratio < 100 || thin_norm > 100 {
        return false;
    }
    if spike == 0 || severe_spike < spike || wide_spread == 0 || severe_spread < wide_spread {
        return false;
    }
    tuning.freshness.fresh_seconds = fresh;
    tuning.freshness.usable_seconds = usable;
    tuning.freshness.stale_seconds = stale;
    tuning.freshness.capture_skew_seconds = skew;
    tuning.convert.sizes = sizes;
    tuning.convert.max_hops = max_hops;
    tuning.radar.max_results = max_results;
    tuning.radar.minimum_profit_basis_points = min_basis_points;
    tuning.radar.max_total_expansions = expansions;
    tuning.risk.thin_liquidity_stock = thin_stock;
    tuning.risk.top_book_outlier_factor = outlier_factor;
    tuning.report_window_hours = window_hours;
    tuning.analytics.trend_recent_days = trend_recent;
    tuning.analytics.trend_window_days = trend_window;
    tuning.analytics.breadth_threshold_percent = breadth;
    tuning.analytics.verdict_threshold_bps = verdict_bps;
    tuning.analytics.scarce_ratio_percent = scarce_ratio;
    tuning.analytics.quiet_floor_anchor_units = quiet_floor;
    tuning.analytics.thin_norm_percent = thin_norm;
    tuning.analytics.raw_retention_days = retention_days;
    tuning.risk.spike_basis_points = spike;
    tuning.risk.severe_spike_basis_points = severe_spike;
    tuning.risk.wide_spread_basis_points = wide_spread;
    tuning.risk.severe_spread_basis_points = severe_spread;
    true
}

/// A save never writes a severity below its trigger: whenever the boxes
/// are read as a writable set, the severe spike is at or above the spike
/// and the severe spread at or above the wide spread (and the freshness
/// bands strictly increase from above zero).
pub proof fn law_severity_sits_at_or_above_its_trigger(form: TuningInputs)
    requires
        form_values(form) is Some,
    ensures
        form_values(form).unwrap().severe_spike >= form_values(form).unwrap().spike,
        form_values(form).unwrap().severe_spread >= form_values(form).unwrap().wide_spread,
        form_values(form).unwrap().spike != 0 && form_values(form).unwrap().wide_spread != 0,
        0 < form_values(form).unwrap().fresh,
        form_values(form).unwrap().fresh < form_values(form).unwrap().usable,
        form_values(form).unwrap().usable < form_values(form).unwrap().stale,
        form_values(form).unwrap().severe_spread == number_of(form.severe_spread@).unwrap(),
        form_values(form).unwrap().wide_spread == number_of(form.wide_spread@).unwrap(),
        form_values(form).unwrap().severe_spike == number_of(form.severe_spike@).unwrap(),
        form_values(form).unwrap().spike == number_of(form.spike@).unwrap(),
{
}

/// A page whose severe-spread box reads below its wide-spread box, or whose
/// severe-spike box reads below its spike box, is refused as a whole.
pub proof fn law_a_severity_below_its_trigger_is_refused(form: TuningInputs)
    requires
        (number_of(form.severe_spread@) is Some && number_of(form.wide_spread@) is Some
            && number_of(form.severe_spread@).unwrap() < number_of(form.wide_spread@).unwrap())
        || (number_of(form.severe_spike@) is Some && number_of(form.spike@) is Some
            && number_of(form.severe_spike@).unwrap() < number_of(form.spike@).unwrap()),
    ensures
        form_values(form) is None,
{
}


/// Appends the numerals of `list` joined with `, `.
fn push_sizes(out: &mut String, list: &Vec<u64>)
    ensures
        final(out)@ == old(out)@ + sizes_text(list@),
{
    let mut i: usize = 0;
    while i < list.len()
        invariant
            i <= list@.len(),
            out@ == old(out)@ + sizes_text(list@.take(i as int)),
        decreases list.len() - i,
    {
        let ghost before = out@;
        proof {
            assert(list@.take(i + 1).drop_last() =~= list@.take(i as int));
        }
        if i > 0 {
            crate::textutil::push_char(out, ',');
            crate::textutil::push_char(out, ' ');
        }
        push_decimal(out, list[i] as u128);
        proof {
            if i == 0 {
                assert(list@.take(1) =~= seq![list@[0]]);
                assert(sizes_text(list@.take(0)) =~= Seq::<char>::empty());
            }
            assert(out@ =~= old(out)@ + sizes_text(list@.take(i + 1)));
        }
        i = i + 1;
    }
    assert(list@.take(i as int) =~= list@);
}

/// Box `box_index` of a form, in page order.
fn box_text(inputs: &TuningInputs, box_index: usize) -> (text: &String)
    requires
        box_index < 24,
    ensures
        text@ == form_text(*inputs, box_index as int),
{
    match box_index {
        0 => &inputs.fresh,
        1 => &inputs.usable,
        2 => &inputs.stale,
        3 => &inputs.skew,
        4 => &inputs.sizes,
        5 => &inputs.max_hops,
        6 => &inputs.max_results,
        7 => &inputs.min_basis_points,
        8 => &inputs.expansions,
        9 => &inputs.thin_stock,
        10 => &inputs.outlier_factor,
        11 => &inputs.window_hours,
        12 => &inputs.trend_recent,
        13 => &inputs.trend_window,
        14 => &inputs.breadth,
        15 => &inputs.verdict_bps,
        16 => &inputs.scarce_ratio,
        17 => &inputs.quiet_floor,
        18 => &inputs.thin_norm,
        19 => &inputs.retention_days,
        20 => &inputs.spike,
        21 => &inputs.severe_spike,
        22 => &inputs.wide_spread,
        _ => &inputs.severe_spread,
    }
}

/// How many of the first `n` boxes hold, trimmed, something other than
/// the stored value's text.
pub open spec fn pending_upto(form: TuningInputs, tuning: MarketTuning, n: int) -> nat
    decreases n,
{
    if n <= 0 {
        0
    } else {
        pending_upto(form, tuning, n - 1) + if trimmed(form_text(form, n - 1)) != stored_text(tuning, n - 1) {
            1nat
        } else {
            0nat
        }
    }
}

/// The "changes not applied" count: the boxes whose trimmed text differs
/// from the stored value's text.
pub fn pending_changes(inputs: &TuningInputs, tuning: &MarketTuning) -> (count: usize)
    ensures
        count == pending_upto(*inputs, *tuning, 24),
{
    let stored = tuning_stored_values(tuning);
    let mut count: usize = 0;
    let mut i: usize = 0;
    while i < 24
        invariant
            i <= 24,
            count == pending_upto(*inputs, *tuning, i as int),
            count <= i,
            forall|k: int| 0 <= k < 24 ==> #[trigger] form_text(stored, k) == stored_text(*tuning, k),
        decreases 24 - i,
    {
        let typed = trim_text(box_text(inputs, i).as_str());
        let kept = box_text(&stored, i);
        if !str_eq(typed.as_str(), kept.as_str()) {
            count = count + 1;
        }
        i = i + 1;
    }
    count
}

/// The ladder as its box shows it: the numerals joined with `, `.
pub open spec fn sizes_text(list: Seq<u64>) -> Seq<char>
    decreases list.len(),
{
    if list.len() == 0 {
        Seq::empty()
    } else if list.len() == 1 {
        decimal(list[0] as nat)
    } else {
        sizes_text(list.drop_last()) + seq![',', ' '] + decimal(list.last() as nat)
    }
}

/// The stored tuning rendered to the strings the boxes are seeded with.
pub open spec fn stored_text(t: MarketTuning, box_index: int) -> Seq<char> {
    values_text(values_of(t), box_index)
}

/// The box texts of a set of values, box by box.
pub open spec fn values_text(v: TuningValues, box_index: int) -> Seq<char> {
    if box_index == 0 {
        decimal(v.fresh as nat)
    } else if box_index == 1 {
        decimal(v.usable as nat)
    } else if box_index == 2 {
        decimal(v.stale as nat)
    } else if box_index == 3 {
        decimal(v.skew as nat)
    } else if box_index == 4 {
        sizes_text(v.sizes)
    } else if box_index == 5 {
        decimal(v.max_hops as nat)
    } else if box_index == 6 {
        decimal(v.max_results as nat)
    } else if box_index == 7 {
        decimal(v.min_basis_points as nat)
    } else if box_index == 8 {
        decimal(v.expansions as nat)
    } else if box_index == 9 {
        decimal(v.thin_stock as nat)
    } else if box_index == 10 {
        decimal(v.outlier_factor as nat)
    } else if box_index == 11 {
        decimal(v.window_hours as nat)
    } else if box_index == 12 {
        decimal(v.trend_recent as nat)
    } else if box_index == 13 {
        decimal(v.trend_window as nat)
    } else if box_index == 14 {
        decimal(v.breadth as nat)
    } else if box_index == 15 {
        decimal(v.verdict_bps as nat)
    } else if box_index == 16 {
        decimal(v.scarce_ratio as nat)
    } else if box_index == 17 {
        decimal(v.quiet_floor as nat)
    } else if box_index == 18 {
        decimal(v.thin_norm as nat)
    } else if box_index == 19 {
        decimal(v.retention_days as nat)
    } else if box_index == 20 {
        decimal(v.spike as nat)
    } else if box_index == 21 {
        decimal(v.severe_spike as nat)
    } else if box_index == 22 {
        decimal(v.wide_spread as nat)
    } else {
        decimal(v.severe_spread as nat)
    }
}

/// The box texts as a form.
pub open spec fn form_text(f: TuningInputs, box_index: int) -> Seq<char> {
    if box_index == 0 {
        f.fresh@
    } else if box_index == 1 {
        f.usable@
    } else if box_index == 2 {
        f.stale@
    } else if box_index == 3 {
        f.skew@
    } else if box_index == 4 {
        f.sizes@
    } else if box_index == 5 {
        f.max_hops@
    } else if box_index == 6 {
        f.max_results@
    } else if box_index == 7 {
        f.min_basis_points@
    } else if box_index == 8 {
        f.expansions@
    } else if box_index == 9 {
        f.thin_stock@
    } else if box_index == 10 {
        f.outlier_factor@
    } else if box_index == 11 {
        f.window_hours@
    } else if box_index == 12 {
        f.trend_recent@
    } else if box_index == 13 {
        f.trend_window@
    } else if box_index == 14 {
        f.breadth@
    } else if box_index == 15 {
        f.verdict_bps@
    } else if box_index == 16 {
        f.scarce_ratio@
    } else if box_index == 17 {
        f.quiet_floor@
    } else if box_index == 18 {
        f.thin_norm@
    } else if box_index == 19 {
        f.retention_days@
    } else if box_index == 20 {
        f.spike@
    } else if box_index == 21 {
        f.severe_spike@
    } else if box_index == 22 {
        f.wide_spread@
    } else {
        f.severe_spread@
    }
}

/// The stored tuning, rendered to the same strings the boxes were seeded
/// with; the "changes not applied" count compares against these.
pub fn tuning_stored_values(tuning: &MarketTuning) -> (inputs: TuningInputs)
    ensures
        forall|i: int| 0 <= i < 24 ==> #[trigger] form_text(inputs, i) == stored_text(*tuning, i),
{
    let mut sizes = String::new();
    push_sizes(&mut sizes, &tuning.convert.sizes);
    assert(sizes@ =~= sizes_text(tuning.convert.sizes@));
    TuningInputs {
        fresh: decimal_text(tuning.freshness.fresh_seconds as u128),
        usable: decimal_text(tuning.freshness.usable_seconds as u128),
        stale: decimal_text(tuning.freshness.stale_seconds as u128),
        skew: decimal_text(tuning.freshness.capture_skew_seconds as u128),
        sizes,
        max_hops: decimal_text(tuning.convert.max_hops as u128),
        max_results: decimal_text(tuning.radar.max_results as u128),
        min_basis_points: decimal_text(tuning.radar.minimum_profit_basis_points as u128),
        expansions: decimal_text(tuning.radar.max_total_expansions as u128),
        thin_stock: decimal_text(tuning.risk.thin_liquidity_stock as u128),
        outlier_factor: decimal_text(tuning.risk.top_book_outlier_factor as u128),
        window_hours: decimal_text(tuning.report_window_hours as u128),
        trend_recent: decimal_text(tuning.analytics.trend_recent_days as u128),
        trend_window: decimal_text(tuning.analytics.trend_window_days as u128),
        breadth: decimal_text(tuning.analytics.breadth_threshold_percent as u128),
        verdict_bps: decimal_text(tuning.analytics.verdict_threshold_bps as u128),
        scarce_ratio: decimal_text(tuning.analytics.scarce_ratio_percent as u128),
        quiet_floor: decimal_text(tuning.analytics.quiet_floor_anchor_units as u128),
        thin_norm: decimal_text(tuning.analytics.thin_norm_percent as u128),
        retention_days: decimal_text(tuning.analytics.raw_retention_days as u128),
        spike: decimal_text(tuning.risk.spike_basis_points as u128),
        severe_spike: decimal_text(tuning.risk.severe_spike_basis_points as u128),
        wide_spread: decimal_text(tuning.risk.wide_spread_basis_points as u128),
        severe_spread: decimal_text(tuning.risk.severe_spread_basis_points as u128),
    }
}


/// The pieces a rendered ladder splits into at its commas.
spec fn ladder_pieces(list: Seq<u64>) -> Seq<Seq<char>>
    decreases list.len(),
{
    if list.len() == 0 {
        Seq::empty()
    } else if list.len() == 1 {
        seq![decimal(list[0] as nat)]
    } else {
        ladder_pieces(list.drop_last()).push(seq![' '] + decimal(list.last() as nat))
    }
}

proof fn lemma_split_ladder(list: Seq<u64>)
    requires
        list.len() >= 1,
    ensures
        crate::numbers::split_commas(sizes_text(list)) == ladder_pieces(list),
    decreases list.len(),
{
    let d = decimal(list.last() as nat);
    crate::numbers::lemma_decimal_digits(list.last() as nat);
    if list.len() == 1 {
        crate::numbers::lemma_split_append_plain(Seq::<char>::empty(), d);
        assert(Seq::<char>::empty() + d =~= d);
        assert(Seq::<char>::empty() + d =~= sizes_text(list));
        assert(crate::numbers::split_commas(Seq::<char>::empty()) =~= seq![Seq::<char>::empty()]);
        assert(crate::numbers::split_commas(sizes_text(list)) =~= ladder_pieces(list));
    } else {
        let head = sizes_text(list.drop_last());
        let tail = seq![' '] + d;
        lemma_split_ladder(list.drop_last());
        crate::numbers::lemma_split_after_comma(head);
        assert forall|k: int| 0 <= k < tail.len() implies #[trigger] tail[k] != ',' by {
            if k > 0 {
                assert(tail[k] == d[k - 1]);
            }
        }
        crate::numbers::lemma_split_append_plain(head.push(','), tail);
        assert(sizes_text(list) =~= head.push(',') + tail);
        let parts = crate::numbers::split_commas(head.push(','));
        assert(parts.last() + tail =~= tail);
        assert(crate::numbers::split_commas(sizes_text(list)) =~= ladder_pieces(list));
    }
}

proof fn lemma_ladder_reads_back(list: Seq<u64>)
    requires
        list.len() >= 1,
        forall|k: int| 0 <= k < list.len() ==> #[trigger] list[k] > 0,
    ensures
        crate::numbers::sizes_from(ladder_pieces(list)) == Some(list),
    decreases list.len(),
{
    let d = decimal(list.last() as nat);
    crate::numbers::lemma_number_of_decimal(list.last() as nat);
    crate::numbers::lemma_decimal_digits(list.last() as nat);
    assert(list[list.len() - 1] > 0);
    if list.len() == 1 {
        assert(ladder_pieces(list).drop_last() =~= Seq::<Seq<char>>::empty());
        assert(ladder_pieces(list).last() == d);
        assert(Seq::<u64>::empty().push(list.last()) =~= list);
    } else {
        let rest = list.drop_last();
        assert forall|k: int| 0 <= k < rest.len() implies #[trigger] rest[k] > 0 by {
            assert(rest[k] == list[k]);
        }
        lemma_ladder_reads_back(rest);
        let piece = seq![' '] + d;
        assert(ladder_pieces(list).drop_last() == ladder_pieces(rest));
        assert(ladder_pieces(list).last() == piece);
        assert(crate::numbers::is_ws(piece[0]));
        assert(piece.drop_first() =~= d);
        assert(crate::numbers::trim_start(piece) == crate::numbers::trim_start(d));
        assert(trimmed(piece) == d);
        assert(rest.push(list.last()) =~= list);
    }
}

/// A rendered ladder of positive sizes reads back as itself.
proof fn lemma_sizes_text_reads_back(list: Seq<u64>)
    requires
        list.len() >= 1,
        forall|k: int| 0 <= k < list.len() ==> #[trigger] list[k] > 0,
    ensures
        sizes_of(sizes_text(list)) == Some(list),
{
    lemma_split_ladder(list);
    lemma_ladder_reads_back(list);
}

/// The boxes seeded from an acceptable tuning read back as exactly its
/// numbers, so applying an untouched page writes the numbers it already
/// holds. (A ladder that is empty or holds a zero has no box text that
/// reads back.)
#[verifier::rlimit(40)]
pub proof fn law_stored_values_read_back(tuning: MarketTuning, form: TuningInputs)
    requires
        values_acceptable(values_of(tuning)),
        tuning.convert.sizes@.len() >= 1,
        forall|k: int| 0 <= k < tuning.convert.sizes@.len() ==> #[trigger] tuning.convert.sizes@[k] > 0,
        forall|i: int| 0 <= i < 24 ==> #[trigger] form_text(form, i) == stored_text(tuning, i),
    ensures
        form_values(form) == Some(values_of(tuning)),
{
    let v = values_of(tuning);
    crate::numbers::lemma_number_of_decimal(v.fresh as nat);
    crate::numbers::lemma_number_of_decimal(v.usable as nat);
    crate::numbers::lemma_number_of_decimal(v.stale as nat);
    crate::numbers::lemma_number_of_decimal(v.skew as nat);
    crate::numbers::lemma_number_of_decimal(v.max_hops as nat);
    crate::numbers::lemma_number_of_decimal(v.max_results as nat);
    crate::numbers::lemma_number_of_decimal(v.min_basis_points as nat);
    crate::numbers::lemma_number_of_decimal(v.expansions as nat);
    crate::numbers::lemma_number_of_decimal(v.thin_stock as nat);
    crate::numbers::lemma_number_of_decimal(v.outlier_factor as nat);
    crate::numbers::lemma_number_of_decimal(v.window_hours as nat);
    crate::numbers::lemma_number_of_decimal(v.trend_recent as nat);
    crate::numbers::lemma_number_of_decimal(v.trend_window as nat);
    crate::numbers::lemma_number_of_decimal(v.breadth as nat);
    crate::numbers::lemma_number_of_decimal(v.verdict_bps as nat);
    crate::numbers::lemma_number_of_decimal(v.scarce_ratio as nat);
    crate::numbers::lemma_number_of_decimal(v.quiet_floor as nat);
    crate::numbers::lemma_number_of_decimal(v.thin_norm as nat);
    crate::numbers::lemma_number_of_decimal(v.retention_days as nat);
    crate::numbers::lemma_number_of_decimal(v.spike as nat);
    crate::numbers::lemma_number_of_decimal(v.severe_spike as nat);
    crate::numbers::lemma_number_of_decimal(v.wide_spread as nat);
    crate::numbers::lemma_number_of_decimal(v.severe_spread as nat);
    lemma_sizes_text_reads_back(v.sizes);
    assert(form_text(form, 0) == stored_text(tuning, 0));
    assert(form_text(form, 1) == stored_text(tuning, 1));
    assert(form_text(form, 2) == stored_text(tuning, 2));
    assert(form_text(form, 3) == stored_text(tuning, 3));
    assert(form_text(form, 4) == stored_text(tuning, 4));
    assert(form_text(form, 5) == stored_text(tuning, 5));
    assert(form_text(form, 6) == stored_text(tuning, 6));
    assert(form_text(form, 7) == stored_text(tuning, 7));
    assert(form_text(form, 8) == stored_text(tuning, 8));
    assert(form_text(form, 9) == stored_text(tuning, 9));
    assert(form_text(form, 10) == stored_text(tuning, 10));
    assert(form_text(form, 11) == stored_text(tuning, 11));
    assert(form_text(form, 12) == stored_text(tuning, 12));
    assert(form_text(form, 13) == stored_text(tuning, 13));
    assert(form_text(form, 14) == stored_text(tuning, 14));
    assert(form_text(form, 15) == stored_text(tuning, 15));
    assert(form_text(form, 16) == stored_text(tuning, 16));
    assert(form_text(form, 17) == stored_text(tuning, 17));
    assert(form_text(form, 18) == stored_text(tuning, 18));
    assert(form_text(form, 19) == stored_text(tuning, 19));
    assert(form_text(form, 20) == stored_text(tuning, 20));
    assert(form_text(form, 21) == stored_text(tuning, 21));
    assert(form_text(form, 22) == stored_text(tuning, 22));
    assert(form_text(form, 23) == stored_text(tuning, 23));
}


proof fn lemma_sizes_text_edges(list: Seq<u64>)
    requires
        list.len() >= 1,
    ensures
        sizes_text(list).len() >= 1,
        !crate::numbers::is_ws(sizes_text(list)[0]),
        !crate::numbers::is_ws(sizes_text(list).last()),
    decreases list.len(),
{
    crate::numbers::lemma_decimal_digits(list.last() as nat);
    let d = decimal(list.last() as nat);
    assert(!crate::numbers::is_ws(d[d.len() - 1]));
    if list.len() > 1 {
        lemma_sizes_text_edges(list.drop_last());
        let head = sizes_text(list.drop_last());
        assert(sizes_text(list)[0] == head[0]);
        assert(sizes_text(list).last() == d.last());
    } else {
        assert(!crate::numbers::is_ws(d[0]));
    }
}

/// A rendered ladder has no surrounding whitespace to trim.
proof fn lemma_sizes_text_trimmed(list: Seq<u64>)
    ensures
        trimmed(sizes_text(list)) == sizes_text(list),
{
    let t = sizes_text(list);
    if list.len() == 0 {
        assert(t.len() == 0);
    } else {
        lemma_sizes_text_edges(list);
        assert(crate::numbers::trim_start(t) == t);
        assert(crate::numbers::trim_end(t) == t);
    }
}

proof fn lemma_nothing_pending(form: TuningInputs, tuning: MarketTuning, n: int)
    requires
        0 <= n <= 24,
        forall|i: int| 0 <= i < 24 ==> #[trigger] trimmed(form_text(form, i)) == stored_text(tuning, i),
    ensures
        pending_upto(form, tuning, n) == 0,
    decreases n,
{
    if n > 0 {
        lemma_nothing_pending(form, tuning, n - 1);
        assert(trimmed(form_text(form, n - 1)) == stored_text(tuning, n - 1));
    }
}

/// A page whose boxes were just seeded from the stored tuning counts no
/// changes not applied.
pub proof fn law_a_seeded_page_has_nothing_pending(tuning: MarketTuning, form: TuningInputs)
    requires
        forall|i: int| 0 <= i < 24 ==> #[trigger] form_text(form, i) == stored_text(tuning, i),
    ensures
        pending_upto(form, tuning, 24) == 0,
{
    let v = values_of(tuning);
    assert forall|i: int| 0 <= i < 24 implies #[trigger] trimmed(form_text(form, i)) == stored_text(tuning, i) by {
        assert(form_text(form, i) == values_text(v, i));
        if i == 4 {
            lemma_sizes_text_trimmed(v.sizes);
        } else if i == 0 {
            crate::numbers::lemma_number_of_decimal(v.fresh as nat);
        } else if i == 1 {
            crate::numbers::lemma_number_of_decimal(v.usable as nat);
        } else if i == 2 {
            crate::numbers::lemma_number_of_decimal(v.stale as nat);
        } else if i == 3 {
            crate::numbers::lemma_number_of_decimal(v.skew as nat);
        } else if i == 5 {
            crate::numbers::lemma_number_of_decimal(v.max_hops as nat);
        } else if i == 6 {
            crate::numbers::lemma_number_of_decimal(v.max_results as nat);
        } else if i == 7 {
            crate::numbers::lemma_number_of_decimal(v.min_basis_points as nat);
        } else if i == 8 {
            crate::numbers::lemma_number_of_decimal(v.expansions as nat);
        } else if i == 9 {
            crate::numbers::lemma_number_of_decimal(v.thin_stock as nat);
        } else if i == 10 {
            crate::numbers::lemma_number_of_decimal(v.outlier_factor as nat);
        } else if i == 11 {
            crate::numbers::lemma_number_of_decimal(v.window_hours as nat);
        } else if i == 12 {
            crate::numbers::lemma_number_of_decimal(v.trend_recent as nat);
        } else if i == 13 {
            crate::numbers::lemma_number_of_decimal(v.trend_window as nat);
        } else if i == 14 {
            crate::numbers::lemma_number_of_decimal(v.breadth as nat);
        } else if i == 15 {
            crate::numbers::lemma_number_of_decimal(v.verdict_bps as nat);
        } else if i == 16 {
            crate::numbers::lemma_number_of_decimal(v.scarce_ratio as nat);
        } else if i == 17 {
            crate::numbers::lemma_number_of_decimal(v.quiet_floor as nat);
        } else if i == 18 {
            crate::numbers::lemma_number_of_decimal(v.thin_norm as nat);
        } else if i == 19 {
            crate::numbers::lemma_number_of_decimal(v.retention_days as nat);
        } else if i == 20 {
            crate::numbers::lemma_number_of_decimal(v.spike as nat);
        } else if i == 21 {
            crate::numbers::lemma_number_of_decimal(v.severe_spike as nat);
        } else if i == 22 {
            crate::numbers::lemma_number_of_decimal(v.wide_spread as nat);
        } else {
            crate::numbers::lemma_number_of_decimal(v.severe_spread as nat);
        }
    }
    lemma_nothing_pending(form, tuning, 24);
}


/// Empties `v`, handing back what it held.
fn take_vec<T>(v: &mut Vec<T>) -> (out: Vec<T>)
    ensures
        out == *old(v),
        final(v)@ == Seq::<T>::empty(),
{
    let mut out: Vec<T> = Vec::new();
    std::mem::swap(v, &mut out);
    out
}

/// Whether `v` holds the text `s`.
fn holds(v: &Vec<String>, s: &str) -> (found: bool)
    ensures
        found == views(v@).contains(s@),
{
    let mut i: usize = 0;
    while i < v.len()
        invariant
            i <= v@.len(),
            forall|k: int| 0 <= k < i ==> v@[k]@ != s@,
        decreases v.len() - i,
    {
        if str_eq(v[i].as_str(), s) {
            assert(views(v@)[i as int] == s@);
            return true;
        }
        i = i + 1;
    }
    proof {
        if views(v@).contains(s@) {
            let k = choose|k: int| 0 <= k < views(v@).len() && views(v@)[k] == s@;
            assert(v@[k]@ == s@);
        }
    }
    false
}

/// `v` without the entries equal to `s`, the rest in order.
fn without_text(v: Vec<String>, s: &str) -> (out: Vec<String>)
    ensures
        views(out@) == views(v@).filter(other_than(s@)),
{
    let ghost all = views(v@);
    let ghost keep = other_than(s@);
    let mut rest = v;
    let mut out: Vec<String> = Vec::new();
    let ghost mut done: int = 0;
    while rest.len() > 0
        invariant
            0 <= done <= all.len(),
            views(rest@) == all.skip(done),
            keep == other_than(s@),
            views(out@) == all.take(done).filter(keep),
        decreases rest.len(),
    {
        let ghost prior = rest@;
        assert(views(prior).len() == prior.len());
        assert(done < all.len());
        let x = rest.remove(0);
        proof {
            assert(all.take(done + 1).drop_last() =~= all.take(done));
            assert(all.take(done + 1).last() == x@) by {
                assert(views(prior)[0] == x@);
            }
            assert(rest@ =~= prior.subrange(1, prior.len() as int));
            assert forall|k: int| 0 <= k < views(rest@).len() implies views(rest@)[k] == all.skip(done + 1)[k] by {
                assert(views(rest@)[k] == rest@[k]@);
                assert(rest@[k] == prior[k + 1]);
                assert(views(prior)[k + 1] == all.skip(done)[k + 1]);
            }
            assert(views(rest@) =~= all.skip(done + 1));
            reveal_with_fuel(Seq::<_>::filter, 1);
        }
        if !str_eq(x.as_str(), s) {
            out.push(x);
        }
        proof {
            assert(views(out@) =~= all.take(done + 1).filter(keep));
            done = done + 1;
        }
    }
    assert(all.take(done) =~= all);
    out
}

/// `v` with `s` appended and then sorted.
fn sorted_with(v: Vec<String>, s: String) -> (out: Vec<String>)
    ensures
        sorted_texts(views(v@).push(s@), views(out@)),
{
    let mut v = v;
    let ghost before = views(v@);
    v.push(s);
    assert(views(v@) =~= before.push(s@));
    sort_texts(v)
}

/// `v` with `asset` added, sorted, each text kept once.
fn sorted_unique_with(v: Vec<String>, asset: &str) -> (out: Vec<String>)
    ensures
        sorted_unique(views(v@).push(asset@), views(out@)),
{
    let sorted = sorted_with(v, asset.to_owned());
    let ghost mid = views(sorted@);
    let out = dedup_strings(sorted);
    assert(sorted_texts(views(v@).push(asset@), mid));
    out
}

/// The ignored suggestions that are not for `asset`.
pub open spec fn suggestions_without(s: Seq<IgnoredSuggestion>, asset: Seq<char>) -> Seq<IgnoredSuggestion> {
    s.filter(|x: IgnoredSuggestion| x.asset_id@ != asset)
}

/// `v` without the suggestions for `asset`, the rest in order.
fn without_suggestion(v: Vec<IgnoredSuggestion>, asset: &str) -> (out: Vec<IgnoredSuggestion>)
    ensures
        out@ == suggestions_without(v@, asset@),
{
    let ghost all = v@;
    let ghost keep = |x: IgnoredSuggestion| x.asset_id@ != asset@;
    let mut rest = v;
    let mut out: Vec<IgnoredSuggestion> = Vec::new();
    let ghost mut done: int = 0;
    while rest.len() > 0
        invariant
            0 <= done <= all.len(),
            rest@ == all.skip(done),
            keep == (|x: IgnoredSuggestion| x.asset_id@ != asset@),
            out@ == all.take(done).filter(keep),
        decreases rest.len(),
    {
        let x = rest.remove(0);
        proof {
            assert(all.take(done + 1).drop_last() =~= all.take(done));
            assert(all.take(done + 1).last() == x);
            assert(rest@ =~= all.skip(done + 1));
            reveal_with_fuel(Seq::<_>::filter, 1);
        }
        if !str_eq(x.asset_id.as_str(), asset) {
            out.push(x);
        }
        proof {
            assert(out@ =~= all.take(done + 1).filter(keep));
            done = done + 1;
        }
    }
    assert(all.take(done) =~= all);
    out
}

/// Whether a refused pair is `from -> to`.
pub open spec fn refuses(p: IgnoredProbe, from: Seq<char>, to: Seq<char>) -> bool {
    p.from_asset_id@ == from && p.to_asset_id@ == to
}

/// `v` without the refusals of `from -> to`, the rest in order.
fn without_refusal(v: Vec<IgnoredProbe>, from: &str, to: &str) -> (out: Vec<IgnoredProbe>)
    ensures
        out@ == v@.filter(|x: IgnoredProbe| !refuses(x, from@, to@)),
{
    let ghost all = v@;
    let ghost keep = |x: IgnoredProbe| !refuses(x, from@, to@);
    let mut rest = v;
    let mut out: Vec<IgnoredProbe> = Vec::new();
    let ghost mut done: int = 0;
    while rest.len() > 0
        invariant
            0 <= done <= all.len(),
            rest@ == all.skip(done),
            keep == (|x: IgnoredProbe| !refuses(x, from@, to@)),
            out@ == all.take(done).filter(keep),
        decreases rest.len(),
    {
        let x = rest.remove(0);
        proof {
            assert(all.take(done + 1).drop_last() =~= all.take(done));
            assert(all.take(done + 1).last() == x);
            assert(rest@ =~= all.skip(done + 1));
            reveal_with_fuel(Seq::<_>::filter, 1);
        }
        if !(str_eq(x.from_asset_id.as_str(), from) && str_eq(x.to_asset_id.as_str(), to)) {
            out.push(x);
        }
        proof {
            assert(out@ =~= all.take(done + 1).filter(keep));
            done = done + 1;
        }
    }
    assert(all.take(done) =~= all);
    out
}

/// The list a focus role is kept in.
pub open spec fn role_list(t: MarketTuning, choice: FocusChoice) -> Seq<Seq<char>> {
    match choice {
        FocusChoice::Target => views(t.focus_assets@),
        FocusChoice::Bridge => views(t.bridge_assets@),
        FocusChoice::WatchOnly => views(t.watch_only_assets@),
        FocusChoice::Unlisted => Seq::empty(),
    }
}

/// Where a currency sits: the first list holding it, focus before bridge
/// before watch-only.
pub open spec fn role_of(t: MarketTuning, asset: Seq<char>) -> FocusChoice {
    if views(t.focus_assets@).contains(asset) {
        FocusChoice::Target
    } else if views(t.bridge_assets@).contains(asset) {
        FocusChoice::Bridge
    } else if views(t.watch_only_assets@).contains(asset) {
        FocusChoice::WatchOnly
    } else {
        FocusChoice::Unlisted
    }
}

/// `out` is `items` sorted with runs of equal texts kept once.
pub open spec fn sorted_unique(items: Seq<Seq<char>>, out: Seq<Seq<char>>) -> bool {
    exists|sorted: Seq<Seq<char>>| #[trigger] sorted_texts(items, sorted) && out == dedup_seq(sorted)
}

/// Whether the pair `from -> to` is refused.
pub open spec fn probe_refused(t: MarketTuning, from: Seq<char>, to: Seq<char>) -> bool {
    exists|i: int| 0 <= i < t.ignored_probes@.len() && #[trigger] t.ignored_probes@[i].from_asset_id@ == from
        && t.ignored_probes@[i].to_asset_id@ == to
}

/// `after` is `before` with `asset` moved into the role `choice`: out of
/// every other role's list, and the chosen list sorted with `asset` added
/// and repeats dropped; nothing else touched.
pub open spec fn focus_choice_set(before: MarketTuning, after: MarketTuning, asset: Seq<char>, choice: FocusChoice) -> bool {
    &&& choice != FocusChoice::Target ==> views(after.focus_assets@) == views(before.focus_assets@).filter(other_than(asset))
    &&& choice != FocusChoice::Bridge ==> views(after.bridge_assets@) == views(before.bridge_assets@).filter(other_than(asset))
    &&& choice != FocusChoice::WatchOnly ==> views(after.watch_only_assets@) == views(before.watch_only_assets@).filter(other_than(asset))
    &&& choice == FocusChoice::Target ==> sorted_unique(views(before.focus_assets@).filter(other_than(asset)).push(asset), views(after.focus_assets@))
    &&& choice == FocusChoice::Bridge ==> sorted_unique(views(before.bridge_assets@).filter(other_than(asset)).push(asset), views(after.bridge_assets@))
    &&& choice == FocusChoice::WatchOnly ==> sorted_unique(views(before.watch_only_assets@).filter(other_than(asset)).push(asset), views(after.watch_only_assets@))
    &&& after == (MarketTuning {
        focus_assets: after.focus_assets,
        bridge_assets: after.bridge_assets,
        watch_only_assets: after.watch_only_assets,
        ..before
    })
}

proof fn lemma_dedup_keeps_members(s: Seq<Seq<char>>, x: Seq<char>)
    requires
        s.contains(x),
    ensures
        dedup_seq(s).contains(x),
    decreases s.len(),
{
    if s.len() > 1 {
        let rest = s.drop_last();
        if s.last() == x {
            if s.last() == s[s.len() - 2] {
                assert(rest[rest.len() - 1] == x);
                lemma_dedup_keeps_members(rest, x);
            } else {
                assert(dedup_seq(s).last() == x);
            }
        } else {
            let k = choose|k: int| 0 <= k < s.len() && s[k] == x;
            assert(rest[k] == x);
            lemma_dedup_keeps_members(rest, x);
            if s.last() != s[s.len() - 2] {
                let d = dedup_seq(rest);
                let j = choose|j: int| 0 <= j < d.len() && d[j] == x;
                assert(d.push(s.last())[j] == x);
            }
        }
    }
}

proof fn lemma_sorted_unique_holds(items: Seq<Seq<char>>, out: Seq<Seq<char>>, x: Seq<char>)
    requires
        sorted_unique(items, out),
        items.contains(x),
    ensures
        out.contains(x),
{
    let sorted = choose|sorted: Seq<Seq<char>>| #[trigger] sorted_texts(items, sorted) && out == dedup_seq(sorted);
    let k = choose|k: int| 0 <= k < items.len() && items[k] == x;
    let pred = same_as(x);
    items.lemma_filter_contains(pred, k);
    assert(copies_of(sorted, x) == copies_of(items, x));
    let c = copies_of(items, x);
    assert(c.len() > 0);
    sorted.lemma_filter_pred(pred, 0);
    assert(c.contains(c[0]));
    sorted.lemma_filter_contains_rev(pred, c[0]);
    lemma_dedup_keeps_members(sorted, x);
}

proof fn lemma_filtered_lacks(s: Seq<Seq<char>>, x: Seq<char>)
    ensures
        !s.filter(other_than(x)).contains(x),
{
    let pred = other_than(x);
    let f = s.filter(pred);
    if f.contains(x) {
        let k = choose|k: int| 0 <= k < f.len() && f[k] == x;
        s.lemma_filter_pred(pred, k);
    }
}

/// Texts strictly increase along `s`: sorted, and no text twice.
pub open spec fn strictly_sorted(s: Seq<Seq<char>>) -> bool {
    forall|i: int, j: int| 0 <= i < j < s.len() ==> crate::order::seq_lt(#[trigger] s[i], #[trigger] s[j])
}

proof fn lemma_dedup_of_sorted(s: Seq<Seq<char>>)
    requires
        crate::order::texts_sorted(s),
    ensures
        strictly_sorted(dedup_seq(s)),
        s.len() > 0 ==> dedup_seq(s).len() > 0 && dedup_seq(s).last() == s.last(),
        forall|k: int| 0 <= k < dedup_seq(s).len() ==> s.contains(#[trigger] dedup_seq(s)[k]),
    decreases s.len(),
{
    if s.len() <= 1 {
        return;
    }
    let r = s.drop_last();
    assert forall|i: int, j: int| 0 <= i < j < r.len() implies !crate::order::seq_lt(#[trigger] r[j], #[trigger] r[i]) by {
        assert(r[i] == s[i] && r[j] == s[j]);
    }
    lemma_dedup_of_sorted(r);
    let d = dedup_seq(r);
    assert forall|k: int| 0 <= k < d.len() implies s.contains(#[trigger] d[k]) by {
        let m = choose|m: int| 0 <= m < r.len() && r[m] == d[k];
        assert(s[m] == d[k]);
    }
    if s.last() == s[s.len() - 2] {
        assert(dedup_seq(s) == d);
    } else {
        let last = s.last();
        let prev = s[s.len() - 2];
        assert(!crate::order::seq_lt(s[s.len() - 1], s[s.len() - 2]));
        crate::order::lemma_seq_lt_total(prev, last);
        assert(crate::order::seq_lt(prev, last));
        assert(d.last() == prev);
        let out = d.push(last);
        assert(dedup_seq(s) == out);
        assert forall|i: int, j: int| 0 <= i < j < out.len() implies crate::order::seq_lt(#[trigger] out[i], #[trigger] out[j]) by {
            if j == out.len() - 1 {
                if i < d.len() - 1 {
                    assert(crate::order::seq_lt(d[i], d[d.len() - 1]));
                    crate::order::lemma_seq_lt_transitive(d[i], prev, last);
                }
            } else {
                assert(out[i] == d[i] && out[j] == d[j]);
            }
        }
        assert forall|k: int| 0 <= k < out.len() implies s.contains(#[trigger] out[k]) by {
            if k == out.len() - 1 {
                assert(s[s.len() - 1] == out[k]);
            } else {
                assert(out[k] == d[k]);
            }
        }
    }
}

proof fn lemma_sorted_unique_only_holds(items: Seq<Seq<char>>, out: Seq<Seq<char>>, x: Seq<char>)
    requires
        sorted_unique(items, out),
        out.contains(x),
    ensures
        items.contains(x),
        strictly_sorted(out),
{
    let sorted = choose|sorted: Seq<Seq<char>>| #[trigger] sorted_texts(items, sorted) && out == dedup_seq(sorted);
    lemma_dedup_of_sorted(sorted);
    let k = choose|k: int| 0 <= k < out.len() && out[k] == x;
    assert(sorted.contains(out[k]));
    let m = choose|m: int| 0 <= m < sorted.len() && sorted[m] == x;
    let pred = same_as(x);
    sorted.lemma_filter_contains(pred, m);
    assert(copies_of(sorted, x) == copies_of(items, x));
    let c = copies_of(items, x);
    assert(c.len() > 0);
    items.lemma_filter_pred(pred, 0);
    assert(c.contains(c[0]));
    items.lemma_filter_contains_rev(pred, c[0]);
}

proof fn lemma_sorted_unique_strict(items: Seq<Seq<char>>, out: Seq<Seq<char>>)
    requires
        sorted_unique(items, out),
    ensures
        strictly_sorted(out),
{
    let sorted = choose|sorted: Seq<Seq<char>>| #[trigger] sorted_texts(items, sorted) && out == dedup_seq(sorted);
    lemma_dedup_of_sorted(sorted);
}

/// Filtering out `asset` keeps every other text where it was.
proof fn lemma_filtered_keeps_others(s: Seq<Seq<char>>, asset: Seq<char>, x: Seq<char>)
    requires
        x != asset,
    ensures
        s.filter(other_than(asset)).contains(x) == s.contains(x),
{
    let pred = other_than(asset);
    if s.contains(x) {
        let m = choose|m: int| 0 <= m < s.len() && s[m] == x;
        s.lemma_filter_contains(pred, m);
    }
    if s.filter(pred).contains(x) {
        s.lemma_filter_contains_rev(pred, x);
    }
}

/// A role's list after a move holds another currency exactly when it did
/// before.
proof fn lemma_role_list_keeps_others(before: Seq<Seq<char>>, after: Seq<Seq<char>>, asset: Seq<char>, chosen: bool, x: Seq<char>)
    requires
        x != asset,
        !chosen ==> after == before.filter(other_than(asset)),
        chosen ==> sorted_unique(before.filter(other_than(asset)).push(asset), after),
    ensures
        after.contains(x) == before.contains(x),
        chosen ==> strictly_sorted(after),
{
    lemma_filtered_keeps_others(before, asset, x);
    let kept = before.filter(other_than(asset));
    if chosen {
        lemma_sorted_unique_strict(kept.push(asset), after);
        if after.contains(x) {
            lemma_sorted_unique_only_holds(kept.push(asset), after, x);
            let k = choose|k: int| 0 <= k < kept.push(asset).len() && kept.push(asset)[k] == x;
            assert(kept[k] == x);
        }
        if kept.contains(x) {
            let k = choose|k: int| 0 <= k < kept.len() && kept[k] == x;
            assert(kept.push(asset)[k] == x);
            lemma_sorted_unique_holds(kept.push(asset), after, x);
        }
    }
}

/// The roles are exclusive and the editor honours the choice: after moving
/// a currency into a role, that is the role it is found in, no other
/// role's list holds it, the chosen list is sorted with nothing twice, and
/// every other currency keeps the lists it was in.
pub proof fn law_focus_choice_reads_back(before: MarketTuning, after: MarketTuning, asset: Seq<char>, choice: FocusChoice)
    requires
        focus_choice_set(before, after, asset, choice),
    ensures
        role_of(after, asset) == choice,
        choice != FocusChoice::Target ==> !views(after.focus_assets@).contains(asset),
        choice != FocusChoice::Bridge ==> !views(after.bridge_assets@).contains(asset),
        choice != FocusChoice::WatchOnly ==> !views(after.watch_only_assets@).contains(asset),
        strictly_sorted(role_list(after, choice)),
        forall|x: Seq<char>| x != asset ==> {
            &&& views(after.focus_assets@).contains(x) == views(before.focus_assets@).contains(x)
            &&& views(after.bridge_assets@).contains(x) == views(before.bridge_assets@).contains(x)
            &&& views(after.watch_only_assets@).contains(x) == views(before.watch_only_assets@).contains(x)
        },
{
    assert forall|x: Seq<char>| x != asset implies {
        &&& views(after.focus_assets@).contains(x) == views(before.focus_assets@).contains(x)
        &&& views(after.bridge_assets@).contains(x) == views(before.bridge_assets@).contains(x)
        &&& views(after.watch_only_assets@).contains(x) == views(before.watch_only_assets@).contains(x)
    } by {
        lemma_role_list_keeps_others(views(before.focus_assets@), views(after.focus_assets@), asset, choice == FocusChoice::Target, x);
        lemma_role_list_keeps_others(views(before.bridge_assets@), views(after.bridge_assets@), asset, choice == FocusChoice::Bridge, x);
        lemma_role_list_keeps_others(views(before.watch_only_assets@), views(after.watch_only_assets@), asset, choice == FocusChoice::WatchOnly, x);
    }
    match choice {
        FocusChoice::Target => lemma_sorted_unique_strict(views(before.focus_assets@).filter(other_than(asset)).push(asset), views(after.focus_assets@)),
        FocusChoice::Bridge => lemma_sorted_unique_strict(views(before.bridge_assets@).filter(other_than(asset)).push(asset), views(after.bridge_assets@)),
        FocusChoice::WatchOnly => lemma_sorted_unique_strict(views(before.watch_only_assets@).filter(other_than(asset)).push(asset), views(after.watch_only_assets@)),
        FocusChoice::Unlisted => {},
    }
    lemma_filtered_lacks(views(before.focus_assets@), asset);
    lemma_filtered_lacks(views(before.bridge_assets@), asset);
    lemma_filtered_lacks(views(before.watch_only_assets@), asset);
    let kept = match choice {
        FocusChoice::Target => views(before.focus_assets@).filter(other_than(asset)),
        FocusChoice::Bridge => views(before.bridge_assets@).filter(other_than(asset)),
        _ => views(before.watch_only_assets@).filter(other_than(asset)),
    };
    assert(kept.push(asset)[kept.len() as int] == asset);
    match choice {
        FocusChoice::Target => lemma_sorted_unique_holds(kept.push(asset), views(after.focus_assets@), asset),
        FocusChoice::Bridge => lemma_sorted_unique_holds(kept.push(asset), views(after.bridge_assets@), asset),
        FocusChoice::WatchOnly => lemma_sorted_unique_holds(kept.push(asset), views(after.watch_only_assets@), asset),
        FocusChoice::Unlisted => {},
    }
}

impl MarketTuning {
    /// The trend baseline in days: the setting, held within [2, 30] (one day
    /// draws no line; past thirty the curve is noise).
    pub fn trend_baseline_days(&self) -> (days: u64)
        ensures
            days == (if self.analytics.trend_window_days < 2 {
                2
            } else if self.analytics.trend_window_days > 30 {
                30
            } else {
                self.analytics.trend_window_days
            }),
    {
        let d = self.analytics.trend_window_days;
        if d < 2 {
            2
        } else if d > 30 {
            30
        } else {
            d
        }
    }

    /// Flips whether routes may pass through a focus target. Returns whether
    /// anything changed.
    pub fn set_route_through_targets(&mut self, allow: bool) -> (changed: bool)
        ensures
            changed == (old(self).route_through_targets != allow),
            final(self).route_through_targets == allow,
            !changed ==> *final(self) == *old(self),
            changed ==> *final(self) == (MarketTuning { route_through_targets: allow, ..*old(self) }),
    {
        if self.route_through_targets == allow {
            return false;
        }
        self.route_through_targets = allow;
        true
    }

    /// Whether a currency is one of the settlement currencies.
    pub fn is_settlement(&self, asset: &str) -> (held: bool)
        ensures
            held == views(self.settlement_assets@).contains(asset@),
    {
        holds(&self.settlement_assets, asset)
    }

    /// Adds a settlement currency, keeping the list sorted. Returns whether
    /// anything changed (not when it is already there).
    pub fn add_settlement(&mut self, asset: String) -> (changed: bool)
        ensures
            changed == !views(old(self).settlement_assets@).contains(asset@),
            !changed ==> *final(self) == *old(self),
            changed ==> {
                &&& sorted_texts(views(old(self).settlement_assets@).push(asset@), views(final(self).settlement_assets@))
                &&& *final(self) == (MarketTuning { settlement_assets: final(self).settlement_assets, ..*old(self) })
            },
    {
        if holds(&self.settlement_assets, asset.as_str()) {
            return false;
        }
        let list = take_vec(&mut self.settlement_assets);
        self.settlement_assets = sorted_with(list, asset);
        true
    }

    /// Drops a settlement currency, never the last one; if it was the
    /// anchor, the anchor falls back to unset. Returns whether the settings
    /// need writing (whenever more than one currency was held).
    pub fn remove_settlement(&mut self, asset: &str) -> (changed: bool)
        ensures
            changed == (old(self).settlement_assets@.len() > 1),
            !changed ==> *final(self) == *old(self),
            changed ==> {
                &&& views(final(self).settlement_assets@) == views(old(self).settlement_assets@).filter(other_than(asset@))
                &&& final(self).anchor_asset == (match old(self).anchor_asset {
                    Some(a) => if a@ == asset@ { None } else { Some(a) },
                    None => None,
                })
                &&& *final(self) == (MarketTuning {
                    settlement_assets: final(self).settlement_assets,
                    anchor_asset: final(self).anchor_asset,
                    ..*old(self)
                })
            },
    {
        if self.settlement_assets.len() <= 1 {
            return false;
        }
        let list = take_vec(&mut self.settlement_assets);
        self.settlement_assets = without_text(list, asset);
        let drop_anchor = match &self.anchor_asset {
            Some(a) => str_eq(a.as_str(), asset),
            None => false,
        };
        if drop_anchor {
            self.anchor_asset = None;
        }
        true
    }

    /// Makes a settlement currency the anchor. Refused (no change) when the
    /// currency is not a settlement currency or already the anchor.
    pub fn set_anchor(&mut self, asset: &str) -> (changed: bool)
        ensures
            changed == (views(old(self).settlement_assets@).contains(asset@) && !(match old(self).anchor_asset {
                Some(a) => a@ == asset@,
                None => false,
            })),
            !changed ==> *final(self) == *old(self),
            changed ==> {
                &&& final(self).anchor_asset is Some
                &&& final(self).anchor_asset.unwrap()@ == asset@
                &&& *final(self) == (MarketTuning { anchor_asset: final(self).anchor_asset, ..*old(self) })
            },
    {
        if !holds(&self.settlement_assets, asset) {
            return false;
        }
        let same = match &self.anchor_asset {
            Some(a) => str_eq(a.as_str(), asset),
            None => false,
        };
        if same {
            return false;
        }
        self.anchor_asset = Some(asset.to_owned());
        true
    }

    /// Where a currency currently sits.
    pub fn focus_choice(&self, asset: &str) -> (choice: FocusChoice)
        ensures
            choice == role_of(*self, asset@),
    {
        if holds(&self.focus_assets, asset) {
            FocusChoice::Target
        } else if holds(&self.bridge_assets, asset) {
            FocusChoice::Bridge
        } else if holds(&self.watch_only_assets, asset) {
            FocusChoice::WatchOnly
        } else {
            FocusChoice::Unlisted
        }
    }

    /// Moves a currency into one focus role: out of every list first (the
    /// roles are exclusive), then into the chosen list, which is sorted and
    /// freed of repeats. The settings always need writing afterwards.
    pub fn set_focus_choice(&mut self, asset: &str, choice: FocusChoice)
        ensures
            focus_choice_set(*old(self), *final(self), asset@, choice),
    {
        let mut focus = without_text(take_vec(&mut self.focus_assets), asset);
        let mut bridge = without_text(take_vec(&mut self.bridge_assets), asset);
        let mut watch = without_text(take_vec(&mut self.watch_only_assets), asset);
        match choice {
            FocusChoice::Target => focus = sorted_unique_with(focus, asset),
            FocusChoice::Bridge => bridge = sorted_unique_with(bridge, asset),
            FocusChoice::WatchOnly => watch = sorted_unique_with(watch, asset),
            FocusChoice::Unlisted => {},
        }
        self.focus_assets = focus;
        self.bridge_assets = bridge;
        self.watch_only_assets = watch;
    }
    /// Stops drawing a currency's valuation row; the hidden list stays
    /// sorted. Returns whether anything changed (not when already hidden).
    pub fn hide_asset(&mut self, asset: &str) -> (changed: bool)
        ensures
            changed == !views(old(self).hidden_assets@).contains(asset@),
            !changed ==> *final(self) == *old(self),
            changed ==> {
                &&& sorted_texts(views(old(self).hidden_assets@).push(asset@), views(final(self).hidden_assets@))
                &&& *final(self) == (MarketTuning { hidden_assets: final(self).hidden_assets, ..*old(self) })
            },
    {
        if holds(&self.hidden_assets, asset) {
            return false;
        }
        let list = take_vec(&mut self.hidden_assets);
        self.hidden_assets = sorted_with(list, asset.to_owned());
        true
    }

    /// Brings every hidden row back.
    pub fn unhide_all_assets(&mut self)
        ensures
            final(self).hidden_assets@.len() == 0,
            *final(self) == (MarketTuning { hidden_assets: final(self).hidden_assets, ..*old(self) }),
    {
        self.hidden_assets.clear();
    }

    /// Stops a currency being suggested again: any earlier entry for it is
    /// replaced by one recording `snapshots`, and the list stays sorted by
    /// currency, stably.
    pub fn ignore_suggestion(&mut self, asset: &str, snapshots: u64)
        ensures
            exists|entry: IgnoredSuggestion| {
                &&& entry.asset_id@ == asset@
                &&& entry.snapshots_when_ignored == snapshots
                &&& #[trigger] stably_sorted(
                    suggestions_without(old(self).ignored_suggestions@, asset@).push(entry),
                    final(self).ignored_suggestions@,
                )
            },
            *final(self) == (MarketTuning { ignored_suggestions: final(self).ignored_suggestions, ..*old(self) }),
    {
        let mut list = without_suggestion(take_vec(&mut self.ignored_suggestions), asset);
        let entry = IgnoredSuggestion { asset_id: asset.to_owned(), snapshots_when_ignored: snapshots };
        let ghost e = entry;
        let ghost kept = list@;
        list.push(entry);
        assert(list@ == kept.push(e));
        self.ignored_suggestions = sort_by_key(list);
    }

    /// Whether the pair `from -> to` is refused.
    pub fn is_probe_ignored(&self, from: &str, to: &str) -> (refused: bool)
        ensures
            refused == probe_refused(*self, from@, to@),
    {
        let mut i: usize = 0;
        while i < self.ignored_probes.len()
            invariant
                i <= self.ignored_probes@.len(),
                forall|k: int| 0 <= k < i ==> !refuses(#[trigger] self.ignored_probes@[k], from@, to@),
            decreases self.ignored_probes.len() - i,
        {
            let p = &self.ignored_probes[i];
            if str_eq(p.from_asset_id.as_str(), from) && str_eq(p.to_asset_id.as_str(), to) {
                return true;
            }
            i = i + 1;
        }
        proof {
            if probe_refused(*self, from@, to@) {
                let k = choose|k: int| 0 <= k < self.ignored_probes@.len() && #[trigger] self.ignored_probes@[k].from_asset_id@ == from@
                    && self.ignored_probes@[k].to_asset_id@ == to@;
                assert(refuses(self.ignored_probes@[k], from@, to@));
            }
        }
        false
    }

    /// Refuses a pair permanently; the refusals stay sorted by pair.
    /// Returns whether anything changed (not when already refused). The
    /// caller also takes the pair off the session's probe queue.
    pub fn ignore_probe(&mut self, from: &str, to: &str) -> (changed: bool)
        ensures
            changed == !probe_refused(*old(self), from@, to@),
            !changed ==> *final(self) == *old(self),
            changed ==> {
                &&& exists|entry: IgnoredProbe| #[trigger] refuses(entry, from@, to@)
                    && stably_sorted(old(self).ignored_probes@.push(entry), final(self).ignored_probes@)
                &&& *final(self) == (MarketTuning { ignored_probes: final(self).ignored_probes, ..*old(self) })
            },
    {
        if self.is_probe_ignored(from, to) {
            return false;
        }
        let mut list = take_vec(&mut self.ignored_probes);
        let entry = IgnoredProbe { from_asset_id: from.to_owned(), to_asset_id: to.to_owned() };
        let ghost e = entry;
        let ghost before = list@;
        list.push(entry);
        assert(refuses(e, from@, to@));
        self.ignored_probes = sort_by_key(list);
        assert(stably_sorted(before.push(e), self.ignored_probes@));
        true
    }

    /// Puts one refused pair back into circulation.
    pub fn restore_ignored_probe(&mut self, from: &str, to: &str)
        ensures
            final(self).ignored_probes@ == old(self).ignored_probes@.filter(|x: IgnoredProbe| !refuses(x, from@, to@)),
            *final(self) == (MarketTuning { ignored_probes: final(self).ignored_probes, ..*old(self) }),
    {
        self.ignored_probes = without_refusal(take_vec(&mut self.ignored_probes), from, to);
    }

    /// Sets the exchange page's look-back day. Returns whether it changed.
    pub fn set_exchange_as_of(&mut self, value: String) -> (changed: bool)
        ensures
            changed == (old(self).exchange.as_of_day@ != value@),
            !changed ==> *final(self) == *old(self),
            changed ==> final(self).exchange == (ExchangeTuning { as_of_day: value, ..old(self).exchange })
                && *final(self) == (MarketTuning { exchange: final(self).exchange, ..*old(self) }),
    {
        if str_eq(self.exchange.as_of_day.as_str(), value.as_str()) {
            return false;
        }
        self.exchange.as_of_day = value;
        true
    }
    /// Saves the exchange boxes: the league (trimmed) and the two day
    /// counts, read by `days_reading` against the current values. Nothing
    /// is written when all three already hold; otherwise the three are
    /// written together and the caller restarts the sync.
    pub fn save_exchange_league(&mut self, league: &str, backfill: &str, retention: &str) -> (outcome: ExchangeSave)
        ensures
            outcome.backfill == days_reading(backfill@, old(self).exchange.backfill_days).1,
            outcome.retention == days_reading(retention@, old(self).exchange.hour_retention_days).1,
            outcome.changed == !(old(self).exchange.league@ == trimmed(league@)
                && old(self).exchange.backfill_days == days_reading(backfill@, old(self).exchange.backfill_days).0
                && old(self).exchange.hour_retention_days == days_reading(retention@, old(self).exchange.hour_retention_days).0),
            !outcome.changed ==> *final(self) == *old(self),
            outcome.changed ==> {
                &&& final(self).exchange.league@ == trimmed(league@)
                &&& final(self).exchange.backfill_days == days_reading(backfill@, old(self).exchange.backfill_days).0
                &&& final(self).exchange.hour_retention_days == days_reading(retention@, old(self).exchange.hour_retention_days).0
                &&& final(self).exchange.as_of_day == old(self).exchange.as_of_day
                &&& *final(self) == (MarketTuning { exchange: final(self).exchange, ..*old(self) })
            },
    {
        let league = trim_text(league);
        let (backfill_days, backfill_note) = read_days(backfill, self.exchange.backfill_days);
        let (retention_days, retention_note) = read_days(retention, self.exchange.hour_retention_days);
        if str_eq(self.exchange.league.as_str(), league.as_str())
            && self.exchange.backfill_days == backfill_days
            && self.exchange.hour_retention_days == retention_days {
            return ExchangeSave { changed: false, backfill: backfill_note, retention: retention_note };
        }
        self.exchange.league = league;
        self.exchange.backfill_days = backfill_days;
        self.exchange.hour_retention_days = retention_days;
        ExchangeSave { changed: true, backfill: backfill_note, retention: retention_note }
    }
}

/// How one valuation row of the focus panel is drawn.
#[derive(Clone, Copy, Debug, PartialEq, Eq, Structural)]
pub struct ValuationRow {
    /// A settlement currency shows the fixed settlement chip and no role
    /// menu.
    pub settlement_chip: bool,
    /// The role the menu shows, for every other currency.
    pub role_menu: Option<FocusChoice>,
    /// The row offers "hide": only a currency that is neither settlement
    /// nor in any focus role.
    pub offers_hide: bool,
    /// The slot of the currency's name: accent for settlement, meta when
    /// nothing prices it, primary otherwise.
    pub name: crate::palette::Token,
}

/// The row a currency gets, from the tuning and whether a price exists.
pub open spec fn valuation_row_of(t: MarketTuning, asset: Seq<char>, priced: bool) -> ValuationRow {
    let settlement = views(t.settlement_assets@).contains(asset);
    ValuationRow {
        settlement_chip: settlement,
        role_menu: if settlement { None } else { Some(role_of(t, asset)) },
        offers_hide: !settlement && role_of(t, asset) == FocusChoice::Unlisted,
        name: if settlement {
            crate::palette::Token::AccentText
        } else if !priced {
            crate::palette::Token::TextMeta
        } else {
            crate::palette::Token::TextPrimary
        },
    }
}

impl MarketTuning {
    /// How the focus panel draws the row of `asset`.
    pub fn valuation_row(&self, asset: &str, priced: bool) -> (row: ValuationRow)
        ensures
            row == valuation_row_of(*self, asset@, priced),
    {
        let settlement = self.is_settlement(asset);
        let choice = self.focus_choice(asset);
        ValuationRow {
            settlement_chip: settlement,
            role_menu: if settlement { None } else { Some(choice) },
            offers_hide: !settlement && choice == FocusChoice::Unlisted,
            name: if settlement {
                crate::palette::Token::AccentText
            } else if !priced {
                crate::palette::Token::TextMeta
            } else {
                crate::palette::Token::TextPrimary
            },
        }
    }
}

} // verus!
