use ptt_app::market::{health_kind, trend_day_options, BAND_AGING_SECONDS, BAND_FRESH_SECONDS};
use ptt_app::palette::Token;
use ptt_app::status::StatusKind;
use ptt_app::trend::{trend_cell, TrendCell, FLAT_BAND_BASIS_POINTS};
use ptt_app::calibration::first_missing;
use ptt_app::exchange::{
    exchange_empty_state, reconcile_weak, shows_volume, surge_chip, ExchangeEmpty, EXCHANGE_ROW_LIMIT,
    RECONCILE_LIMIT,
};
use ptt_app::market::{radar_columns, RadarTable};
use ptt_app::status::segment_border;
use ptt_app::text::UiLanguage;
use ptt_app::watch::{coverage_totals, visible_rows};

fn names(list: &[&str]) -> Vec<String> {
    list.iter().map(|name| (*name).to_owned()).collect()
}

#[test]
fn hidden_rows_are_left_out_and_counted() {
    let assets = names(&["chaos", "vaal", "divine", "regal"]);
    let hidden = names(&["regal", "vaal", "mirror"]);
    assert_eq!(visible_rows(&assets, &hidden), (vec![0, 2], 2));
    assert_eq!(visible_rows(&assets, &Vec::new()), (vec![0, 1, 2, 3], 0));
    assert_eq!(visible_rows(&[], &hidden), (Vec::new(), 0));
}

#[test]
fn coverage_counts_the_complete_pairs() {
    assert_eq!(coverage_totals(&[true, false, true, true]), (3, 4));
    assert_eq!(coverage_totals(&[]), (0, 0));
    assert_eq!(coverage_totals(&[false, false]), (0, 2));
}

#[test]
fn the_health_light_follows_the_age_of_the_last_book() {
    assert_eq!(health_kind(None), StatusKind::Idle);
    assert_eq!(health_kind(Some(0)), StatusKind::Fresh);
    assert_eq!(health_kind(Some(BAND_FRESH_SECONDS - 1)), StatusKind::Fresh);
    assert_eq!(health_kind(Some(BAND_FRESH_SECONDS)), StatusKind::Warning);
    assert_eq!(health_kind(Some(BAND_AGING_SECONDS - 1)), StatusKind::Warning);
    assert_eq!(health_kind(Some(BAND_AGING_SECONDS)), StatusKind::Error);
    assert_eq!((BAND_FRESH_SECONDS, BAND_AGING_SECONDS), (300, 1800));
}

#[test]
fn a_trend_is_drawn_only_over_a_full_baseline() {
    assert_eq!(trend_cell(true, 7, &[1; 7], Some(500)), TrendCell::AnchorConstant);
    assert_eq!(trend_cell(false, 7, &[1], None), TrendCell::DaysShort { missing: 6 });
    assert_eq!(trend_cell(false, 7, &[0, 0, 1], None), TrendCell::DaysShort { missing: 6 });
    assert_eq!(trend_cell(false, 7, &[1, 1, 1], None), TrendCell::Bars { missing: 4 });
    assert_eq!(
        trend_cell(false, 3, &[0, 0, 0, 1, 1, 1], Some(FLAT_BAND_BASIS_POINTS)),
        TrendCell::Curve { line: Token::Accent, fill: Token::AccentFill, figure: Token::AccentText }
    );
    assert_eq!(
        trend_cell(false, 3, &[1, 1, 1], Some(-FLAT_BAND_BASIS_POINTS)),
        TrendCell::Curve { line: Token::Danger, fill: Token::DangerWash, figure: Token::DangerText }
    );
    assert_eq!(
        trend_cell(false, 3, &[1, 1, 1], Some(199)),
        TrendCell::Curve { line: Token::TextDisabled, fill: Token::TrendFlatFill, figure: Token::TextMeta }
    );
    assert_eq!(trend_cell(false, 3, &[1, 1, 0], Some(900)), TrendCell::Bars { missing: 1 });
    assert_eq!(FLAT_BAND_BASIS_POINTS, 200);
}

#[test]
fn the_trend_selector_offers_every_day_the_data_holds() {
    assert_eq!(trend_day_options(3, 2), vec![1, 2, 3]);
    assert_eq!(trend_day_options(0, 1), vec![1]);
    assert_eq!(trend_day_options(3, 7), vec![1, 2, 3, 7], "a saved choice beyond the data stays offered");
    assert_eq!(trend_day_options(2, 0), vec![0, 1, 2]);
    let capped = trend_day_options(500, 30);
    assert_eq!(capped.len(), 120);
    assert_eq!(capped.last(), Some(&120));
}

#[test]
fn the_calibration_band_names_the_first_region_still_missing() {
    assert_eq!(first_missing(&[true, false, false]), Some(1));
    assert_eq!(first_missing(&[false, true, true]), Some(0));
    assert_eq!(first_missing(&[true, true, true]), None);
    assert_eq!(first_missing(&[]), None);
}

#[test]
fn the_exchange_page_tells_waiting_from_empty() {
    assert_eq!(exchange_empty_state(5, true), ExchangeEmpty::Rows);
    assert_eq!(exchange_empty_state(2, false), ExchangeEmpty::Backfilling);
    assert_eq!(exchange_empty_state(1, false), ExchangeEmpty::NoData);
    assert_eq!(exchange_empty_state(0, false), ExchangeEmpty::NoData);
    assert!(surge_chip(200));
    assert!(surge_chip(480));
    assert!(!surge_chip(199));
    assert!(reconcile_weak(7, 10));
    assert!(!reconcile_weak(8, 10));
    assert!(!reconcile_weak(0, 0));
    assert!(reconcile_weak(u64::MAX / 2, u64::MAX));
    assert!(shows_volume(false));
    assert!(!shows_volume(true));
    assert_eq!((EXCHANGE_ROW_LIMIT, RECONCILE_LIMIT), (200, 6));
}

#[test]
fn status_bar_dividers_stand_between_segments() {
    assert!(segment_border(0, 3));
    assert!(segment_border(1, 3));
    assert!(!segment_border(2, 3));
    assert!(!segment_border(0, 0));
    assert!(!segment_border(0, 1));
}

#[test]
fn new_rows_keep_the_readers_column_widths() {
    let mut table = RadarTable::new(vec!["a"], UiLanguage::English, 1);
    assert_eq!(table.columns(), radar_columns().as_slice());
    table.set_column_widths(&[60, 40]);
    assert_eq!(table.columns()[0].width, 60);
    assert_eq!(table.columns()[1].width, 40);
    assert_eq!(table.columns()[2].width, 348);
    assert!(!table.set_rows(vec!["b", "c"], UiLanguage::English, 1));
    assert_eq!(table.row(1), Some(&"c"));
    assert_eq!(table.row(2), None);
    assert_eq!(table.columns()[0].width, 60, "the reader's width survives new rows");
    assert!(table.set_rows(vec!["d"], UiLanguage::Chinese, 1));
    assert_eq!(table.columns(), radar_columns().as_slice(), "a new language rebuilds the columns");
    assert!(table.set_rows(vec!["e"], UiLanguage::Chinese, 2));
    assert_eq!(table.row(0), Some(&"e"));
}
