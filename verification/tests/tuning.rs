use ptt_app::market::FocusChoice;
use ptt_app::palette::Token;
use ptt_app::numbers::{number, positive_count, sizes, trim_text};
use ptt_app::tuning::{
    apply_tuning, pending_changes, read_days, tuning_is_valid, tuning_stored_values, AnalyticsTuning, ConvertTuning,
    DaysNote, ExchangeSave, ExchangeTuning, ValuationRow, FreshnessTuning, IgnoredProbe, IgnoredSuggestion, MarketTuning, RadarTuning,
    RiskTuning, TuningInputs,
};

fn tuning() -> MarketTuning {
    MarketTuning {
        freshness: FreshnessTuning {
            fresh_seconds: 300,
            usable_seconds: 1800,
            stale_seconds: 7200,
            capture_skew_seconds: 5,
        },
        convert: ConvertTuning {
            sizes: vec![1, 10, 100],
            max_hops: 3,
        },
        radar: RadarTuning {
            max_results: 50,
            minimum_profit_basis_points: 25,
            max_total_expansions: 20000,
        },
        risk: RiskTuning {
            thin_liquidity_stock: 3,
            top_book_outlier_factor: 4,
            spike_basis_points: 1500,
            severe_spike_basis_points: 3000,
            wide_spread_basis_points: 800,
            severe_spread_basis_points: 2000,
        },
        analytics: AnalyticsTuning {
            trend_recent_days: 3,
            trend_window_days: 7,
            breadth_threshold_percent: 60,
            verdict_threshold_bps: 300,
            scarce_ratio_percent: 200,
            quiet_floor_anchor_units: 10,
            thin_norm_percent: 40,
            raw_retention_days: 14,
        },
        exchange: ExchangeTuning {
            league: "Dawn".to_owned(),
            backfill_days: 30,
            hour_retention_days: 90,
            as_of_day: String::new(),
        },
        report_window_hours: 24,
        settlement_assets: vec!["chaos".to_owned(), "divine".to_owned()],
        anchor_asset: Some("divine".to_owned()),
        route_through_targets: false,
        focus_assets: vec!["exalted".to_owned()],
        bridge_assets: Vec::new(),
        watch_only_assets: Vec::new(),
        hidden_assets: Vec::new(),
        ignored_suggestions: Vec::new(),
        ignored_probes: Vec::new(),
    }
}

fn texts_of(inputs: &TuningInputs) -> Vec<String> {
    vec![
        inputs.fresh.clone(),
        inputs.usable.clone(),
        inputs.stale.clone(),
        inputs.skew.clone(),
        inputs.sizes.clone(),
        inputs.max_hops.clone(),
        inputs.max_results.clone(),
        inputs.min_basis_points.clone(),
        inputs.expansions.clone(),
        inputs.thin_stock.clone(),
        inputs.outlier_factor.clone(),
        inputs.window_hours.clone(),
        inputs.trend_recent.clone(),
        inputs.trend_window.clone(),
        inputs.breadth.clone(),
        inputs.verdict_bps.clone(),
        inputs.scarce_ratio.clone(),
        inputs.quiet_floor.clone(),
        inputs.thin_norm.clone(),
        inputs.retention_days.clone(),
        inputs.spike.clone(),
        inputs.severe_spike.clone(),
        inputs.wide_spread.clone(),
        inputs.severe_spread.clone(),
    ]
}

fn set_box(inputs: &mut TuningInputs, index: usize, value: &str) {
    let slot = match index {
        0 => &mut inputs.fresh,
        1 => &mut inputs.usable,
        2 => &mut inputs.stale,
        3 => &mut inputs.skew,
        4 => &mut inputs.sizes,
        5 => &mut inputs.max_hops,
        6 => &mut inputs.max_results,
        7 => &mut inputs.min_basis_points,
        8 => &mut inputs.expansions,
        9 => &mut inputs.thin_stock,
        10 => &mut inputs.outlier_factor,
        11 => &mut inputs.window_hours,
        12 => &mut inputs.trend_recent,
        13 => &mut inputs.trend_window,
        14 => &mut inputs.breadth,
        15 => &mut inputs.verdict_bps,
        16 => &mut inputs.scarce_ratio,
        17 => &mut inputs.quiet_floor,
        18 => &mut inputs.thin_norm,
        19 => &mut inputs.retention_days,
        20 => &mut inputs.spike,
        21 => &mut inputs.severe_spike,
        22 => &mut inputs.wide_spread,
        _ => &mut inputs.severe_spread,
    };
    *slot = value.to_owned();
}

#[test]
fn a_box_reads_a_whole_number_the_way_the_standard_library_does() {
    assert_eq!(number("42"), Some(42));
    assert_eq!(number("  42\t"), Some(42));
    assert_eq!(number("+7"), Some(7));
    assert_eq!(number("0"), Some(0));
    assert_eq!(number("18446744073709551615"), Some(u64::MAX));
    assert_eq!(number("18446744073709551616"), None);
    assert_eq!(number(""), None);
    assert_eq!(number("   "), None);
    assert_eq!(number("-1"), None);
    assert_eq!(number("4 2"), None);
    assert_eq!(number("1.5"), None);
    assert_eq!(number("+"), None);
    assert_eq!(number("\u{3000}9\u{a0}"), Some(9));
}

#[test]
fn the_ladder_reads_positive_sizes_and_skips_blanks() {
    assert_eq!(sizes("1, 10, 100"), Some(vec![1, 10, 100]));
    assert_eq!(sizes("5"), Some(vec![5]));
    assert_eq!(sizes(" 1,, 2 ,"), Some(vec![1, 2]));
    assert_eq!(sizes(""), None);
    assert_eq!(sizes(" , "), None);
    assert_eq!(sizes("1, 0"), None);
    assert_eq!(sizes("1, x"), None);
    assert_eq!(sizes("1; 2"), None);
}

#[test]
fn trimming_drops_surrounding_whitespace_only() {
    assert_eq!(trim_text("  a b \n"), "a b");
    assert_eq!(trim_text(""), "");
    assert_eq!(trim_text(" \t "), "");
}

#[test]
fn the_stored_values_seed_the_boxes_and_read_back_unchanged() {
    let stored = tuning();
    let inputs = tuning_stored_values(&stored);
    assert_eq!(inputs.fresh, "300");
    assert_eq!(inputs.sizes, "1, 10, 100");
    assert_eq!(inputs.expansions, "20000");
    assert_eq!(inputs.severe_spread, "2000");
    assert!(tuning_is_valid(&inputs));
    let mut applied = tuning();
    assert!(apply_tuning(&mut applied, &inputs));
    assert_eq!(texts_of(&tuning_stored_values(&applied)), texts_of(&inputs));
    assert_eq!(applied.convert.sizes, vec![1, 10, 100]);
    assert_eq!(applied.freshness.stale_seconds, 7200);
}

#[test]
fn an_edited_page_writes_every_number_at_once() {
    let mut target = tuning();
    let mut inputs = tuning_stored_values(&target);
    inputs.fresh = " 60 ".to_owned();
    inputs.sizes = "2,4".to_owned();
    inputs.breadth = "100".to_owned();
    assert!(apply_tuning(&mut target, &inputs));
    assert_eq!(target.freshness.fresh_seconds, 60);
    assert_eq!(target.convert.sizes, vec![2, 4]);
    assert_eq!(target.analytics.breadth_threshold_percent, 100);
    assert_eq!(target.settlement_assets, vec!["chaos".to_owned(), "divine".to_owned()]);
}

#[test]
fn one_bad_box_writes_nothing() {
    let cases: [(usize, &str); 9] = [
        (0, "0"),
        (1, "300"),
        (2, "1800"),
        (4, "1, 0"),
        (5, "0"),
        (10, "1"),
        (14, "101"),
        (16, "99"),
        (21, "1000"),
    ];
    for (index, bad) in cases {
        let mut target = tuning();
        let mut inputs = tuning_stored_values(&target);
        set_box(&mut inputs, index, bad);
        assert!(!apply_tuning(&mut target, &inputs), "box {index} holding {bad:?} was written");
        assert_eq!(texts_of(&tuning_stored_values(&target)), texts_of(&tuning_stored_values(&tuning())));
    }
}

#[test]
fn a_blank_box_makes_the_page_invalid() {
    let mut inputs = tuning_stored_values(&tuning());
    inputs.skew = "   ".to_owned();
    assert!(!tuning_is_valid(&inputs));
    let mut inputs = tuning_stored_values(&tuning());
    inputs.usable = "300".to_owned();
    assert!(!tuning_is_valid(&inputs), "equal bands collapse the amber light");
    let mut inputs = tuning_stored_values(&tuning());
    inputs.sizes = "1,,".to_owned();
    assert!(tuning_is_valid(&inputs));
}

#[test]
fn the_trend_baseline_stays_between_two_days_and_a_month() {
    let mut t = tuning();
    t.analytics.trend_window_days = 1;
    assert_eq!(t.trend_baseline_days(), 2);
    t.analytics.trend_window_days = 7;
    assert_eq!(t.trend_baseline_days(), 7);
    t.analytics.trend_window_days = 90;
    assert_eq!(t.trend_baseline_days(), 30);
}

#[test]
fn settlement_currencies_stay_sorted_and_never_run_out() {
    let mut t = tuning();
    assert!(t.is_settlement("chaos"));
    assert!(!t.add_settlement("chaos".to_owned()));
    assert!(t.add_settlement("alchemy".to_owned()));
    assert_eq!(t.settlement_assets, vec!["alchemy".to_owned(), "chaos".to_owned(), "divine".to_owned()]);
    assert!(t.remove_settlement("divine"));
    assert_eq!(t.anchor_asset, None, "removing the anchor unsets it");
    assert!(t.remove_settlement("alchemy"));
    assert!(!t.remove_settlement("chaos"), "the last settlement currency stays");
    assert_eq!(t.settlement_assets, vec!["chaos".to_owned()]);
}

#[test]
fn only_a_settlement_currency_can_be_the_anchor() {
    let mut t = tuning();
    assert!(!t.set_anchor("exalted"));
    assert!(!t.set_anchor("divine"), "already the anchor");
    assert!(t.set_anchor("chaos"));
    assert_eq!(t.anchor_asset.as_deref(), Some("chaos"));
}

#[test]
fn a_currency_holds_one_role_at_a_time() {
    let mut t = tuning();
    assert_eq!(t.focus_choice("exalted"), FocusChoice::Target);
    t.set_focus_choice("exalted", FocusChoice::Bridge);
    assert_eq!(t.focus_choice("exalted"), FocusChoice::Bridge);
    assert!(t.focus_assets.is_empty());
    t.set_focus_choice("exalted", FocusChoice::WatchOnly);
    assert_eq!(t.focus_choice("exalted"), FocusChoice::WatchOnly);
    assert!(t.bridge_assets.is_empty());
    t.set_focus_choice("exalted", FocusChoice::Unlisted);
    assert_eq!(t.focus_choice("exalted"), FocusChoice::Unlisted);
    t.set_focus_choice("b", FocusChoice::Target);
    t.set_focus_choice("a", FocusChoice::Target);
    t.set_focus_choice("a", FocusChoice::Target);
    assert_eq!(t.focus_assets, vec!["a".to_owned(), "b".to_owned()]);
}

#[test]
fn hidden_rows_stay_sorted_and_come_back_together() {
    let mut t = tuning();
    assert!(t.hide_asset("vaal"));
    assert!(t.hide_asset("regal"));
    assert!(!t.hide_asset("vaal"));
    assert_eq!(t.hidden_assets, vec!["regal".to_owned(), "vaal".to_owned()]);
    t.unhide_all_assets();
    assert!(t.hidden_assets.is_empty());
}

#[test]
fn an_ignored_suggestion_is_recorded_once() {
    let mut t = tuning();
    t.ignore_suggestion("vaal", 3);
    t.ignore_suggestion("alchemy", 1);
    t.ignore_suggestion("vaal", 9);
    let entries: Vec<(String, u64)> = t
        .ignored_suggestions
        .iter()
        .map(|s: &IgnoredSuggestion| (s.asset_id.clone(), s.snapshots_when_ignored))
        .collect();
    assert_eq!(entries, vec![("alchemy".to_owned(), 1), ("vaal".to_owned(), 9)]);
}

#[test]
fn a_refused_pair_stays_refused_until_restored() {
    let mut t = tuning();
    assert!(!t.is_probe_ignored("a", "b"));
    assert!(t.ignore_probe("a", "b"));
    assert!(t.ignore_probe("a", "a"));
    assert!(!t.ignore_probe("a", "b"));
    assert!(t.is_probe_ignored("a", "b"));
    assert!(!t.is_probe_ignored("b", "a"));
    let pairs: Vec<(String, String)> = t
        .ignored_probes
        .iter()
        .map(|p: &IgnoredProbe| (p.from_asset_id.clone(), p.to_asset_id.clone()))
        .collect();
    assert_eq!(pairs, vec![("a".to_owned(), "a".to_owned()), ("a".to_owned(), "b".to_owned())]);
    t.restore_ignored_probe("a", "b");
    assert!(!t.is_probe_ignored("a", "b"));
    assert!(t.is_probe_ignored("a", "a"));
}

#[test]
fn switches_report_whether_they_changed_anything() {
    let mut t = tuning();
    assert!(!t.set_route_through_targets(false));
    assert!(t.set_route_through_targets(true));
    assert!(t.route_through_targets);
    assert!(t.set_exchange_as_of("2024-03-05".to_owned()));
    assert!(!t.set_exchange_as_of("2024-03-05".to_owned()));
    assert_eq!(t.exchange.as_of_day, "2024-03-05");
}

#[test]
fn a_count_box_takes_only_a_positive_number() {
    assert_eq!(positive_count(" 12 "), Some(12));
    assert_eq!(positive_count("0"), None);
    assert_eq!(positive_count("-3"), None);
    assert_eq!(positive_count(""), None);
}

#[test]
fn day_boxes_are_held_to_a_year_and_keep_their_value_when_unreadable() {
    assert_eq!(read_days("30", 7), (30, DaysNote::Taken));
    assert_eq!(read_days("365", 7), (365, DaysNote::Taken));
    assert_eq!(read_days("30000", 7), (365, DaysNote::Clamped));
    assert_eq!(read_days("", 7), (7, DaysNote::Kept));
    assert_eq!(read_days("a week", 7), (7, DaysNote::Kept));
}

#[test]
fn the_exchange_boxes_are_written_together_or_not_at_all() {
    let mut t = tuning();
    let same = t.save_exchange_league(" Dawn ", "30", "90");
    assert_eq!(
        same,
        ExchangeSave { changed: false, backfill: DaysNote::Taken, retention: DaysNote::Taken }
    );
    let moved = t.save_exchange_league("Standard", "1000", "x");
    assert_eq!(
        moved,
        ExchangeSave { changed: true, backfill: DaysNote::Clamped, retention: DaysNote::Kept }
    );
    assert_eq!(t.exchange.league, "Standard");
    assert_eq!(t.exchange.backfill_days, 365);
    assert_eq!(t.exchange.hour_retention_days, 90);
    assert!(t.save_exchange_league("", "365", "90").changed, "an empty league turns syncing off");
    assert_eq!(t.exchange.league, "");
}

#[test]
fn the_pending_count_compares_trimmed_boxes_with_the_stored_text() {
    let stored = tuning();
    let mut inputs = tuning_stored_values(&stored);
    assert_eq!(pending_changes(&inputs, &stored), 0);
    inputs.fresh = " 300 ".to_owned();
    assert_eq!(pending_changes(&inputs, &stored), 0, "surrounding blanks are no change");
    inputs.usable = "1801".to_owned();
    inputs.sizes = "1,10,100".to_owned();
    assert_eq!(pending_changes(&inputs, &stored), 2, "the ladder is compared as text");
}

#[test]
fn only_an_unlisted_non_settlement_row_offers_hide() {
    let t = tuning();
    assert_eq!(
        t.valuation_row("divine", true),
        ValuationRow { settlement_chip: true, role_menu: None, offers_hide: false, name: Token::AccentText }
    );
    assert_eq!(
        t.valuation_row("exalted", true),
        ValuationRow {
            settlement_chip: false,
            role_menu: Some(FocusChoice::Target),
            offers_hide: false,
            name: Token::TextPrimary,
        }
    );
    assert_eq!(
        t.valuation_row("vaal", false),
        ValuationRow {
            settlement_chip: false,
            role_menu: Some(FocusChoice::Unlisted),
            offers_hide: true,
            name: Token::TextMeta,
        }
    );
}
