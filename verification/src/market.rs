//! The market vocabulary the pages colour and label: freshness tiers,
//! liquidity classes, execution verdicts, focus roles, and the short texts
//! and numbers the tables print.

use vstd::prelude::*;
use crate::palette::Token;
use crate::status::StatusKind;
use crate::text::Text;
use crate::textutil::{decimal, decimal_text, digit_char, push_char, push_decimal, str_eq};

verus! {

/// How old a book is.
#[derive(Clone, Copy, Debug, PartialEq, Eq, Structural)]
pub enum FreshnessStatus {
    Fresh,
    Usable,
    Stale,
    Archived,
}

/// Whether a currency is scarce, oversupplied, quiet or balanced.
#[derive(Clone, Copy, Debug, PartialEq, Eq, Structural)]
pub enum LiquidityClass {
    Scarce,
    Oversupplied,
    Quiet,
    Balanced,
}

/// Whether a route can be traded now.
#[derive(Clone, Copy, Debug, PartialEq, Eq, Structural)]
pub enum Actionability {
    InstantExecutable,
    MakerTheoretical,
    ProbeRequired,
    SuspiciousOutlier,
}

/// Freshness to status colour: fresh is green, usable amber, stale and
/// archived brick. The one place the traffic light is defined.
pub fn freshness_kind(status: FreshnessStatus) -> (kind: StatusKind)
    ensures
        kind == (match status {
            FreshnessStatus::Fresh => StatusKind::Fresh,
            FreshnessStatus::Usable => StatusKind::Warning,
            FreshnessStatus::Stale | FreshnessStatus::Archived => StatusKind::Error,
        }),
{
    match status {
        FreshnessStatus::Fresh => StatusKind::Fresh,
        FreshnessStatus::Usable => StatusKind::Warning,
        FreshnessStatus::Stale | FreshnessStatus::Archived => StatusKind::Error,
    }
}

/// Liquidity class to chip colour: scarce is the interesting gold state,
/// oversupplied and quiet are warnings, balanced is neutral.
pub fn class_kind(class: LiquidityClass) -> (kind: StatusKind)
    ensures
        kind == (match class {
            LiquidityClass::Scarce => StatusKind::Monitoring,
            LiquidityClass::Oversupplied | LiquidityClass::Quiet => StatusKind::Warning,
            LiquidityClass::Balanced => StatusKind::Idle,
        }),
{
    match class {
        LiquidityClass::Scarce => StatusKind::Monitoring,
        LiquidityClass::Oversupplied | LiquidityClass::Quiet => StatusKind::Warning,
        LiquidityClass::Balanced => StatusKind::Idle,
    }
}

/// Execution category to status colour: executable now is neutral, maker
/// and probe need attention, a suspicious outlier is distrusted.
pub fn actionability_kind(category: Actionability) -> (kind: StatusKind)
    ensures
        kind == (match category {
            Actionability::InstantExecutable => StatusKind::Idle,
            Actionability::MakerTheoretical | Actionability::ProbeRequired => StatusKind::Warning,
            Actionability::SuspiciousOutlier => StatusKind::Error,
        }),
{
    match category {
        Actionability::InstantExecutable => StatusKind::Idle,
        Actionability::MakerTheoretical | Actionability::ProbeRequired => StatusKind::Warning,
        Actionability::SuspiciousOutlier => StatusKind::Error,
    }
}

/// The verdict at column width.
pub fn verdict_short(chrome: &Text, category: Actionability) -> (short: &'static str)
    ensures
        short == (match category {
            Actionability::InstantExecutable => chrome.radar_verdict_instant,
            Actionability::MakerTheoretical => chrome.radar_verdict_maker,
            Actionability::ProbeRequired => chrome.radar_verdict_probe,
            Actionability::SuspiciousOutlier => chrome.radar_verdict_outlier,
        }),
{
    match category {
        Actionability::InstantExecutable => chrome.radar_verdict_instant,
        Actionability::MakerTheoretical => chrome.radar_verdict_maker,
        Actionability::ProbeRequired => chrome.radar_verdict_probe,
        Actionability::SuspiciousOutlier => chrome.radar_verdict_outlier,
    }
}

/// The freshness tier at column width.
pub fn freshness_short(chrome: &Text, status: FreshnessStatus) -> (short: &'static str)
    ensures
        short == (match status {
            FreshnessStatus::Fresh => chrome.freshness_fresh,
            FreshnessStatus::Usable => chrome.freshness_usable,
            FreshnessStatus::Stale => chrome.freshness_stale,
            FreshnessStatus::Archived => chrome.freshness_archived,
        }),
{
    match status {
        FreshnessStatus::Fresh => chrome.freshness_fresh,
        FreshnessStatus::Usable => chrome.freshness_usable,
        FreshnessStatus::Stale => chrome.freshness_stale,
        FreshnessStatus::Archived => chrome.freshness_archived,
    }
}

/// A book younger than this many seconds is fresh.
pub const BAND_FRESH_SECONDS: u64 = 300;

/// A book younger than this many seconds is aging; older is stale.
pub const BAND_AGING_SECONDS: u64 = 1800;

/// The monitor's health light from the age of the last book: waiting
/// before any book, then fresh, aging and stale by age.
pub fn health_kind(age_seconds: Option<u64>) -> (kind: StatusKind)
    ensures
        kind == (match age_seconds {
            None => StatusKind::Idle,
            Some(s) => if s < BAND_FRESH_SECONDS {
                StatusKind::Fresh
            } else if s < BAND_AGING_SECONDS {
                StatusKind::Warning
            } else {
                StatusKind::Error
            },
        }),
{
    match age_seconds {
        None => StatusKind::Idle,
        Some(s) => if s < BAND_FRESH_SECONDS {
            StatusKind::Fresh
        } else if s < BAND_AGING_SECONDS {
            StatusKind::Warning
        } else {
            StatusKind::Error
        },
    }
}

/// The colour of a profit figure: gold when the round trip nets something
/// or breaks even, brick when it loses, meta grey when nothing prices it.
pub fn edge_color(round_trip_basis_points: Option<i64>) -> (token: Token)
    ensures
        token == (match round_trip_basis_points {
            None => Token::TextMeta,
            Some(points) => if points >= 0 { Token::AccentText } else { Token::DangerText },
        }),
{
    match round_trip_basis_points {
        None => Token::TextMeta,
        Some(points) => if points >= 0 {
            Token::AccentText
        } else {
            Token::DangerText
        },
    }
}

/// A percentage made to carry its sign: `percent` is the runtime's
/// rendering of `basis_points`, and a gain or a flat figure gets a leading
/// `+` unless it already has one.
pub open spec fn signed_text(basis_points: i64, percent: Seq<char>) -> Seq<char> {
    if basis_points >= 0 && !(percent.len() > 0 && percent[0] == '+') {
        seq!['+'] + percent
    } else {
        percent
    }
}

/// `+50.00%` / `-26.00%`: the sign on every figure, so gains and losses
/// read at a glance.
pub fn signed_percent(basis_points: i64, percent: &str) -> (out: String)
    ensures
        out@ == signed_text(basis_points, percent@),
{
    let chars = crate::textutil::chars_of(percent);
    let mut out = String::new();
    if basis_points >= 0 && !(chars.len() > 0 && chars[0] == '+') {
        crate::textutil::push_char(&mut out, '+');
    }
    crate::textutil::push_str(&mut out, percent);
    proof {
        if basis_points >= 0 && !(percent@.len() > 0 && percent@[0] == '+') {
            assert(out@ =~= seq!['+'] + percent@);
        } else {
            assert(out@ =~= percent@);
        }
    }
    out
}

/// An exact rate: `numerator` of one side per `denominator` of the other,
/// with the text the book printed it as.
pub struct Ratio {
    pub numerator: u64,
    pub denominator: u64,
    pub text: String,
}

/// Two digits, a leading zero below ten (`{:02}`).
pub open spec fn two_digits(n: nat) -> Seq<char> {
    seq![digit_char(n / 10), digit_char(n % 10)]
}

/// A count of hundredths as a two-decimal reading: the whole part, a
/// point, and always two digits of hundredths (`45.50`).
pub open spec fn hundredths_text(scaled: nat) -> Seq<char> {
    decimal(scaled / 100) + seq!['.'] + two_digits(scaled % 100)
}

/// What one unit costs, rounded half up to hundredths; the book's own text
/// when the rate has no denominator.
pub open spec fn per_unit(r: Ratio) -> Seq<char> {
    if r.denominator == 0 {
        r.text@
    } else {
        hundredths_text(((r.numerator * 100 + r.denominator / 2) / (r.denominator as int)) as nat)
    }
}

/// The per-unit price column as a two-decimal reading: `91:2` is `45.50`,
/// `58469137:200000` is `292.35`.
pub fn per_unit_text(value: &Ratio) -> (out: String)
    ensures
        out@ == per_unit(*value),
{
    if value.denominator == 0 {
        return value.text.clone();
    }
    let numerator = value.numerator as u128;
    let denominator = value.denominator as u128;
    let scaled = (numerator * 100 + denominator / 2) / denominator;
    let whole = scaled / 100;
    let cents = scaled % 100;
    let mut out = String::new();
    push_decimal(&mut out, whole);
    push_char(&mut out, '.');
    push_char(&mut out, crate::textutil::digit(cents / 10));
    push_char(&mut out, crate::textutil::digit(cents % 10));
    assert(out@ =~= per_unit(*value));
    out
}

/// A currency's place in the focus set.
#[derive(Clone, Copy, Debug, PartialEq, Eq, Structural)]
pub enum FocusChoice {
    /// Scanned for opportunities.
    Target,
    /// Allowed as an intermediate, but not a destination.
    Bridge,
    /// Priced and reported, never routed through.
    WatchOnly,
    /// Not in the focus set at all.
    Unlisted,
}

impl FocusChoice {
    /// The four roles the watchlist offers, in button order.
    pub fn editable() -> (all: [FocusChoice; 4])
        ensures
            all@ == seq![FocusChoice::Target, FocusChoice::Bridge, FocusChoice::WatchOnly, FocusChoice::Unlisted],
    {
        let all = [FocusChoice::Target, FocusChoice::Bridge, FocusChoice::WatchOnly, FocusChoice::Unlisted];
        assert(all@ =~= seq![FocusChoice::Target, FocusChoice::Bridge, FocusChoice::WatchOnly, FocusChoice::Unlisted]);
        all
    }

    /// The role's name in the reader's language.
    pub fn label(self, text: &Text) -> (name: &'static str)
        ensures
            name == (match self {
                FocusChoice::Target => text.role_target,
                FocusChoice::Bridge => text.role_bridge,
                FocusChoice::WatchOnly => text.role_watch_only,
                FocusChoice::Unlisted => text.role_unlisted,
            }),
    {
        match self {
            FocusChoice::Target => text.role_target,
            FocusChoice::Bridge => text.role_bridge,
            FocusChoice::WatchOnly => text.role_watch_only,
            FocusChoice::Unlisted => text.role_unlisted,
        }
    }
}

/// The ten-thousand sign that big counts are written in.
pub open spec fn wan_sign() -> char {
    '万'
}

/// A count as the tables print it: at 100 000 and above in units of ten
/// thousand with the 万 sign (12141911 is 1214万); below that, exactly.
pub open spec fn wan_text(units: nat) -> Seq<char> {
    if units >= 100_000 {
        decimal(units / 10_000).push(wan_sign())
    } else {
        decimal(units)
    }
}

/// A big count in units of ten thousand.
pub fn wan(units: u128) -> (out: String)
    ensures
        out@ == wan_text(units as nat),
{
    if units >= 100_000 {
        let mut s = String::new();
        push_decimal(&mut s, units / 10_000);
        push_char(&mut s, '万');
        assert(s@ =~= wan_text(units as nat));
        s
    } else {
        decimal_text(units)
    }
}

/// How many days the exchange sparkline draws: the trend selector's span,
/// but never fewer than 7 bars nor more than 60.
pub fn spark_days(trend_days: u64) -> (days: u64)
    ensures
        days == (if trend_days < 7 { 7 } else if trend_days > 60 { 60 } else { trend_days }),
{
    if trend_days < 7 {
        7
    } else if trend_days > 60 {
        60
    } else {
        trend_days
    }
}

/// The most days the trend selector offers.
pub const TREND_DAYS_LIMIT: u64 = 120;

/// The whole days `1..=top`.
pub open spec fn day_range(top: nat) -> Seq<u64> {
    Seq::new(top, |i: int| (i + 1) as u64)
}

/// The trend selector's choices: every day count from one to the days the
/// data really holds (at least one, at most the limit), and the saved
/// choice in its place among them when it is not one of those.
pub open spec fn trend_days_offered(data_days: u64, selected: u64) -> Seq<u64> {
    let top: nat = if data_days < 1 { 1 } else if data_days > TREND_DAYS_LIMIT { TREND_DAYS_LIMIT as nat } else { data_days as nat };
    if 1 <= selected && selected <= top {
        day_range(top)
    } else if selected == 0 {
        seq![0u64] + day_range(top)
    } else {
        day_range(top).push(selected)
    }
}

/// The trend selector's choices, in order; see `trend_days_offered`.
pub fn trend_day_options(data_days: u64, selected: u64) -> (days: Vec<u64>)
    ensures
        days@ == trend_days_offered(data_days, selected),
{
    let top: u64 = if data_days < 1 { 1 } else if data_days > TREND_DAYS_LIMIT { TREND_DAYS_LIMIT } else { data_days };
    let mut days: Vec<u64> = Vec::new();
    let mut d: u64 = 1;
    while d <= top
        invariant
            1 <= d <= top + 1,
            top <= TREND_DAYS_LIMIT,
            days@ == day_range((d - 1) as nat),
        decreases top + 1 - d,
    {
        days.push(d);
        assert(days@ =~= day_range(d as nat));
        d = d + 1;
    }
    if selected == 0 {
        days.insert(0, 0);
        assert(days@ =~= seq![0u64] + day_range(top as nat));
    } else if selected > top {
        days.push(selected);
    }
    days
}

/// What identifies a route across scans: its kind and its asset path. The
/// row's own id is a push position and is not stable.
pub struct RouteKey {
    /// Cycle or conversion.
    pub kind: u8,
    /// The asset ids along the route.
    pub path: Vec<String>,
}

/// A route key as plain values.
pub open spec fn route_view(key: RouteKey) -> (u8, Seq<Seq<char>>) {
    (key.kind, key.path@.map_values(|s: String| s@))
}

fn same_route(a: &RouteKey, b: &RouteKey) -> (same: bool)
    ensures
        same == (route_view(*a) == route_view(*b)),
{
    if a.kind != b.kind || a.path.len() != b.path.len() {
        proof {
            if route_view(*a) == route_view(*b) {
                assert(route_view(*a).1.len() == a.path@.len());
            }
        }
        return false;
    }
    let mut i: usize = 0;
    while i < a.path.len()
        invariant
            i <= a.path@.len(),
            a.path@.len() == b.path@.len(),
            forall|k: int| 0 <= k < i ==> a.path@[k]@ == b.path@[k]@,
        decreases a.path.len() - i,
    {
        if !str_eq(a.path[i].as_str(), b.path[i].as_str()) {
            proof {
                if route_view(*a) == route_view(*b) {
                    assert(route_view(*a).1[i as int] == route_view(*b).1[i as int]);
                }
            }
            return false;
        }
        i = i + 1;
    }
    assert(route_view(*a).1 =~= route_view(*b).1);
    true
}

/// Where the selected route ends up in a freshly scanned row set: the first
/// new row with the same identity, or `None` when the selection was empty,
/// out of range, or this scan did not find that route.
pub fn remap_selection(selected: Option<usize>, old_rows: &[RouteKey], new_rows: &[RouteKey]) -> (moved: Option<usize>)
    ensures
        match selected {
            Some(s) if (s as int) < old_rows@.len() => {
                &&& moved.is_some() ==> {
                    &&& (moved.unwrap() as int) < new_rows@.len()
                    &&& route_view(new_rows@[moved.unwrap() as int]) == route_view(old_rows@[s as int])
                    &&& forall|j: int| 0 <= j < moved.unwrap() ==> route_view(new_rows@[j]) != route_view(old_rows@[s as int])
                }
                &&& moved.is_none() ==> forall|j: int| 0 <= j < new_rows@.len() ==> route_view(new_rows@[j]) != route_view(old_rows@[s as int])
            },
            _ => moved.is_none(),
        },
{
    let s = match selected {
        Some(s) => s,
        None => return None,
    };
    if s >= old_rows.len() {
        return None;
    }
    let wanted = &old_rows[s];
    let mut i: usize = 0;
    while i < new_rows.len()
        invariant
            i <= new_rows@.len(),
            (s as int) < old_rows@.len(),
            selected == Some(s),
            wanted == old_rows@[s as int],
            forall|j: int| 0 <= j < i ==> route_view(new_rows@[j]) != route_view(*wanted),
        decreases new_rows.len() - i,
    {
        if same_route(&new_rows[i], wanted) {
            return Some(i);
        }
        i = i + 1;
    }
    None
}


/// The radar table's width budget in pixels at the 1280 window.
pub const RADAR_TABLE_WIDTH_BUDGET: u32 = 822;

/// One column of the radar table.
#[derive(Clone, Copy, Debug, PartialEq, Eq)]
pub struct RadarColumn {
    pub key: &'static str,
    /// Width in pixels.
    pub width: u32,
    pub right_aligned: bool,
    pub sortable: bool,
}

/// The columns a radar table is built with.
pub open spec fn built_columns() -> Seq<RadarColumn> {
    seq![
        RadarColumn { key: "light", width: 54, right_aligned: false, sortable: false },
        RadarColumn { key: "kind", width: 42, right_aligned: false, sortable: false },
        RadarColumn { key: "route", width: 348, right_aligned: false, sortable: false },
        RadarColumn { key: "edge", width: 62, right_aligned: true, sortable: true },
        RadarColumn { key: "depth", width: 58, right_aligned: true, sortable: false },
        RadarColumn { key: "rate", width: 88, right_aligned: true, sortable: false },
        RadarColumn { key: "verdict", width: 80, right_aligned: false, sortable: false },
        RadarColumn { key: "risks", width: 90, right_aligned: false, sortable: false },
    ]
}

/// The radar table's columns, freshness first: what the reader looks at
/// first; depth before rate because the list is ordered by depth.
pub fn radar_columns() -> (columns: Vec<RadarColumn>)
    ensures
        columns@ == built_columns(),
        columns@.len() == 8,
        columns@[0].key@ == "light"@ && columns@[0].width == 54,
        columns@[1].key@ == "kind"@ && columns@[1].width == 42,
        columns@[2].key@ == "route"@ && columns@[2].width == 348,
        columns@[3].key@ == "edge"@ && columns@[3].width == 62,
        columns@[4].key@ == "depth"@ && columns@[4].width == 58,
        columns@[5].key@ == "rate"@ && columns@[5].width == 88,
        columns@[6].key@ == "verdict"@ && columns@[6].width == 80,
        columns@[7].key@ == "risks"@ && columns@[7].width == 90,
        columns@[0].width + columns@[1].width + columns@[2].width + columns@[3].width
            + columns@[4].width + columns@[5].width + columns@[6].width + columns@[7].width
            == RADAR_TABLE_WIDTH_BUDGET,
        forall|i: int| 0 <= i < 8 ==> (#[trigger] columns@[i]).sortable == (i == 3),
        forall|i: int| 0 <= i < 8 ==> (#[trigger] columns@[i]).right_aligned == (3 <= i <= 5),
{
    let columns = vec![
        RadarColumn { key: "light", width: 54, right_aligned: false, sortable: false },
        RadarColumn { key: "kind", width: 42, right_aligned: false, sortable: false },
        RadarColumn { key: "route", width: 348, right_aligned: false, sortable: false },
        RadarColumn { key: "edge", width: 62, right_aligned: true, sortable: true },
        RadarColumn { key: "depth", width: 58, right_aligned: true, sortable: false },
        RadarColumn { key: "rate", width: 88, right_aligned: true, sortable: false },
        RadarColumn { key: "verdict", width: 80, right_aligned: false, sortable: false },
        RadarColumn { key: "risks", width: 90, right_aligned: false, sortable: false },
    ];
    assert(columns@ =~= built_columns());
    columns
}

/// Whether replacing the radar's rows also rebuilds its columns: only when
/// the language or the catalogue (the game) changed.
pub fn rows_move_columns(old_language: crate::text::UiLanguage, new_language: crate::text::UiLanguage, same_catalog: bool) -> (rebuild: bool)
    ensures
        rebuild == (old_language != new_language || !same_catalog),
{
    old_language != new_language || !same_catalog
}

/// The radar's table state: its columns, its rows, and what the columns
/// were built for. The catalogue is known by its identity.
pub struct RadarTable<R> {
    columns: Vec<RadarColumn>,
    rows: Vec<R>,
    language: crate::text::UiLanguage,
    catalog: u64,
    /// The reader dragged a column edge, which retires the automatic fit.
    widths_are_the_readers: bool,
}

/// A radar table as values.
pub struct RadarTableView<R> {
    pub columns: Seq<RadarColumn>,
    pub rows: Seq<R>,
    pub language: crate::text::UiLanguage,
    pub catalog: u64,
    pub widths_are_the_readers: bool,
}

impl<R> View for RadarTable<R> {
    type V = RadarTableView<R>;

    closed spec fn view(&self) -> RadarTableView<R> {
        RadarTableView {
            columns: self.columns@,
            rows: self.rows@,
            language: self.language,
            catalog: self.catalog,
            widths_are_the_readers: self.widths_are_the_readers,
        }
    }
}

/// A freshly built table.
pub open spec fn built_table<R>(rows: Seq<R>, language: crate::text::UiLanguage, catalog: u64) -> RadarTableView<R> {
    RadarTableView { columns: built_columns(), rows, language, catalog, widths_are_the_readers: false }
}

impl<R> RadarTable<R> {
    /// A table over `rows`, its columns built for `language` and `catalog`.
    pub fn new(rows: Vec<R>, language: crate::text::UiLanguage, catalog: u64) -> (table: Self)
        ensures
            table@ == built_table(rows@, language, catalog),
    {
        RadarTable { columns: radar_columns(), rows, language, catalog, widths_are_the_readers: false }
    }

    /// Replaces the rows. When the language or the catalogue changed the
    /// table is rebuilt (columns and widths anew) and `true` is returned;
    /// otherwise only the rows change and every column, widths the reader
    /// set included, is kept.
    pub fn set_rows(&mut self, rows: Vec<R>, language: crate::text::UiLanguage, catalog: u64) -> (rebuilt: bool)
        ensures
            rebuilt == (old(self)@.language != language || old(self)@.catalog != catalog),
            rebuilt ==> final(self)@ == built_table(rows@, language, catalog),
            !rebuilt ==> final(self)@ == (RadarTableView { rows: rows@, ..old(self)@ }),
    {
        if rows_move_columns(self.language, language, self.catalog == catalog) {
            *self = RadarTable::new(rows, language, catalog);
            return true;
        }
        self.rows = rows;
        false
    }

    /// Takes back the widths of columns the reader dragged, column by
    /// column as far as both lists go; the automatic fit is retired.
    pub fn set_column_widths(&mut self, widths: &[u32])
        ensures
            final(self)@.columns.len() == old(self)@.columns.len(),
            forall|i: int| 0 <= i < old(self)@.columns.len() ==> #[trigger] final(self)@.columns[i] == if i < widths@.len() {
                RadarColumn { width: widths@[i], ..old(self)@.columns[i] }
            } else {
                old(self)@.columns[i]
            },
            final(self)@.rows == old(self)@.rows,
            final(self)@.language == old(self)@.language,
            final(self)@.catalog == old(self)@.catalog,
            final(self)@.widths_are_the_readers,
    {
        let mut i: usize = 0;
        while i < self.columns.len() && i < widths.len()
            invariant
                i <= self.columns@.len(),
                i <= widths@.len(),
                self.columns@.len() == old(self).columns@.len(),
                self.rows@ == old(self).rows@,
                self.language == old(self).language,
                self.catalog == old(self).catalog,
                forall|j: int| 0 <= j < self.columns@.len() ==> #[trigger] self.columns@[j] == if j < i {
                    RadarColumn { width: widths@[j], ..old(self).columns@[j] }
                } else {
                    old(self).columns@[j]
                },
            decreases self.columns.len() - i,
        {
            let mut column = self.columns[i];
            column.width = widths[i];
            self.columns.set(i, column);
            i = i + 1;
        }
        self.widths_are_the_readers = true;
    }

    /// The row at `index`, if there is one.
    pub fn row(&self, index: usize) -> (row: Option<&R>)
        ensures
            index < self@.rows.len() ==> row == Some(&self@.rows[index as int]),
            index >= self@.rows.len() ==> row is None,
    {
        if index < self.rows.len() {
            Some(&self.rows[index])
        } else {
            None
        }
    }

    /// The columns, in order.
    pub fn columns(&self) -> (columns: &[RadarColumn])
        ensures
            columns@ == self@.columns,
    {
        self.columns.as_slice()
    }
}

} // verus!
