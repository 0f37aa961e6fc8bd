use ptt_app::dates::{apply_exchange_as_of, day_string, season_boundary, CalendarDay, SeasonBoundary};
use ptt_app::season::{PurgeGuard, SeasonInfo};
use ptt_app::tuning::{
    AnalyticsTuning, ConvertTuning, ExchangeTuning, FreshnessTuning, MarketTuning, RadarTuning,
    RiskTuning,
};

fn tuning(as_of: &str) -> MarketTuning {
    MarketTuning {
        freshness: FreshnessTuning {
            fresh_seconds: 1,
            usable_seconds: 2,
            stale_seconds: 3,
            capture_skew_seconds: 0,
        },
        convert: ConvertTuning { sizes: vec![1], max_hops: 1 },
        radar: RadarTuning {
            max_results: 1,
            minimum_profit_basis_points: 0,
            max_total_expansions: 1,
        },
        risk: RiskTuning {
            thin_liquidity_stock: 0,
            top_book_outlier_factor: 2,
            spike_basis_points: 1,
            severe_spike_basis_points: 1,
            wide_spread_basis_points: 1,
            severe_spread_basis_points: 1,
        },
        analytics: AnalyticsTuning {
            trend_recent_days: 1,
            trend_window_days: 7,
            breadth_threshold_percent: 50,
            verdict_threshold_bps: 1,
            scarce_ratio_percent: 100,
            quiet_floor_anchor_units: 0,
            thin_norm_percent: 0,
            raw_retention_days: 1,
        },
        exchange: ExchangeTuning {
            league: String::new(),
            backfill_days: 0,
            hour_retention_days: 0,
            as_of_day: as_of.to_owned(),
        },
        report_window_hours: 1,
        settlement_assets: vec!["chaos".to_owned()],
        anchor_asset: None,
        route_through_targets: false,
        focus_assets: Vec::new(),
        bridge_assets: Vec::new(),
        watch_only_assets: Vec::new(),
        hidden_assets: Vec::new(),
        ignored_suggestions: Vec::new(),
        ignored_probes: Vec::new(),
    }
}

#[test]
fn a_day_prints_the_way_chrono_prints_it() {
    assert_eq!(day_string(CalendarDay { year: 2024, month: 3, day: 5 }), "2024-03-05");
    assert_eq!(day_string(CalendarDay { year: 2024, month: 12, day: 31 }), "2024-12-31");
    assert_eq!(day_string(CalendarDay { year: 987, month: 1, day: 1 }), "0987-01-01");
    assert_eq!(day_string(CalendarDay { year: -44, month: 3, day: 15 }), "-0044-03-15");
    assert_eq!(day_string(CalendarDay { year: 12345, month: 6, day: 7 }), "+12345-06-07");
}

#[test]
fn an_empty_boundary_box_means_now() {
    assert_eq!(season_boundary(""), SeasonBoundary::Now);
    assert_eq!(season_boundary("   "), SeasonBoundary::Now);
}

#[test]
fn a_typed_day_means_its_midnight() {
    assert_eq!(
        season_boundary(" 2024-03-05 "),
        SeasonBoundary::Midnight(CalendarDay { year: 2024, month: 3, day: 5 })
    );
    assert_eq!(
        season_boundary("2024-02-29"),
        SeasonBoundary::Midnight(CalendarDay { year: 2024, month: 2, day: 29 })
    );
}

#[test]
fn a_mistyped_day_is_refused_rather_than_read_as_now() {
    assert_eq!(season_boundary("2023-02-29"), SeasonBoundary::Refused);
    assert_eq!(season_boundary("yesterday"), SeasonBoundary::Refused);
    assert_eq!(season_boundary("05/03/2024"), SeasonBoundary::Refused);
}

#[test]
fn the_exchange_day_is_stored_in_chronos_spelling() {
    let mut t = tuning("");
    assert_eq!(apply_exchange_as_of(&mut t, "2024-3-5"), Some(true));
    assert_eq!(t.exchange.as_of_day, "2024-03-05");
    assert_eq!(apply_exchange_as_of(&mut t, "2024-03-05"), Some(false));
    assert_eq!(apply_exchange_as_of(&mut t, "not a day"), None);
    assert_eq!(t.exchange.as_of_day, "2024-03-05");
    assert_eq!(apply_exchange_as_of(&mut t, "  "), Some(true));
    assert_eq!(t.exchange.as_of_day, "");
}

#[test]
fn a_count_started_before_an_invalidation_never_lands() {
    let mut info = SeasonInfo::new();
    let round = info.ensure().expect("nothing cached, nothing running");
    assert_eq!(info.ensure(), None, "one count at a time");
    info.invalidate();
    assert!(!info.finish(round, vec!["old".to_owned()]));
    assert!(info.lines.is_none());
    assert!(!info.loading);
    let round = info.ensure().expect("the old count has stopped");
    assert!(info.finish(round, vec!["new".to_owned()]));
    assert_eq!(info.lines, Some(vec!["new".to_owned()]));
    assert_eq!(info.ensure(), None, "the lines are cached");
}

#[test]
fn deleting_an_old_season_takes_two_clicks() {
    let mut guard = PurgeGuard::new();
    assert!(!guard.click(), "the first click only arms");
    assert!(guard.armed);
    assert!(guard.click(), "the second click deletes");
    assert!(!guard.armed);
    assert!(!guard.click());
    guard.disarm();
    assert!(!guard.click(), "another action in between starts over");
}
