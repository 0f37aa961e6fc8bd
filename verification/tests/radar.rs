use ptt_app::market::{per_unit_text, Ratio};
use ptt_app::pair::PairState;
use ptt_app::quotes::{selected_quote, sorted_quotes, RouteQuote};
use ptt_app::market::{
    actionability_kind, class_kind, edge_color, freshness_kind, freshness_short, radar_columns,
    remap_selection, rows_move_columns, signed_percent, spark_days, verdict_short, wan,
    Actionability, FocusChoice, FreshnessStatus, LiquidityClass, RouteKey,
    RADAR_TABLE_WIDTH_BUDGET,
};
use ptt_app::palette::Token;
use ptt_app::status::StatusKind;
use ptt_app::text::{text, UiLanguage};

fn row(path: &[&str]) -> RouteKey {
    RouteKey {
        kind: 1,
        path: path.iter().map(|id| (*id).to_owned()).collect(),
    }
}

#[test]
fn a_reordered_scan_keeps_the_selection_on_the_same_route() {
    let before = vec![row(&["one", "z"]), row(&["two", "z"]), row(&["three", "z"])];
    let after = vec![row(&["two", "z"]), row(&["one", "z"]), row(&["three", "z"])];
    assert_eq!(
        remap_selection(Some(1), &before, &after),
        Some(0),
        "the selection should follow the route it was put on, not stay on \
         the index that route used to have"
    );
}

#[test]
fn a_scan_without_the_selected_route_clears_the_selection() {
    let before = vec![row(&["one", "z"]), row(&["two", "z"]), row(&["three", "z"])];
    let after = vec![row(&["one", "z"]), row(&["three", "z"])];
    assert_eq!(
        remap_selection(Some(1), &before, &after),
        None,
        "a route this scan did not find has no row"
    );
}

#[test]
fn the_same_path_of_another_kind_is_another_route() {
    let before = vec![row(&["one", "z"])];
    let mut other = row(&["one", "z"]);
    other.kind = 2;
    let after = vec![other, row(&["one", "z"])];
    assert_eq!(remap_selection(Some(0), &before, &after), Some(1));
    assert_eq!(remap_selection(None, &before, &after), None);
    assert_eq!(remap_selection(Some(5), &before, &after), None);
}

#[test]
fn the_built_columns_spend_exactly_the_budget() {
    let total: u32 = radar_columns().iter().map(|column| column.width).sum();
    assert_eq!(
        total, RADAR_TABLE_WIDTH_BUDGET,
        "the built columns add up to {total}, the budget is {RADAR_TABLE_WIDTH_BUDGET}"
    );
}

#[test]
fn freshness_leads_the_table() {
    assert_eq!(
        radar_columns().first().map(|column| column.key),
        Some("light"),
        "the data column moved out of first place"
    );
}

#[test]
fn only_the_profit_column_sorts_and_the_numbers_align_right() {
    let columns = radar_columns();
    let keys: Vec<&str> = columns.iter().map(|column| column.key).collect();
    assert_eq!(keys, ["light", "kind", "route", "edge", "depth", "rate", "verdict", "risks"]);
    let sortable: Vec<bool> = columns.iter().map(|column| column.sortable).collect();
    assert_eq!(sortable, [false, false, false, true, false, false, false, false]);
    let right: Vec<bool> = columns.iter().map(|column| column.right_aligned).collect();
    assert_eq!(right, [false, false, false, true, true, true, false, false]);
    assert_eq!(columns[2].width, 348);
}

#[test]
fn columns_rebuild_only_for_a_new_language_or_game() {
    assert!(!rows_move_columns(UiLanguage::English, UiLanguage::English, true));
    assert!(rows_move_columns(UiLanguage::English, UiLanguage::Chinese, true));
    assert!(rows_move_columns(UiLanguage::Chinese, UiLanguage::Chinese, false));
}

#[test]
fn big_numbers_read_in_wan() {
    assert_eq!(wan(12_141_911), "1214万");
    assert_eq!(wan(18_531), "18531");
    assert_eq!(wan(99_999), "99999");
    assert_eq!(wan(100_000), "10万");
    assert_eq!(wan(0), "0");
}

#[test]
fn the_spark_span_stays_between_a_week_and_two_months() {
    assert_eq!(spark_days(0), 7);
    assert_eq!(spark_days(7), 7);
    assert_eq!(spark_days(30), 30);
    assert_eq!(spark_days(60), 60);
    assert_eq!(spark_days(365), 60);
}

#[test]
fn profit_figures_carry_their_sign() {
    assert_eq!(signed_percent(5000, "50.00%"), "+50.00%");
    assert_eq!(signed_percent(0, "0.00%"), "+0.00%");
    assert_eq!(signed_percent(5000, "+50.00%"), "+50.00%");
    assert_eq!(signed_percent(-2600, "-26.00%"), "-26.00%");
}

#[test]
fn profit_colours_follow_the_sign() {
    assert_eq!(edge_color(Some(100)), Token::AccentText);
    assert_eq!(edge_color(Some(0)), Token::AccentText);
    assert_eq!(edge_color(Some(-1)), Token::DangerText);
    assert_eq!(edge_color(None), Token::TextMeta);
}

#[test]
fn freshness_and_verdicts_map_to_their_lights() {
    assert_eq!(freshness_kind(FreshnessStatus::Fresh), StatusKind::Fresh);
    assert_eq!(freshness_kind(FreshnessStatus::Usable), StatusKind::Warning);
    assert_eq!(freshness_kind(FreshnessStatus::Stale), StatusKind::Error);
    assert_eq!(freshness_kind(FreshnessStatus::Archived), StatusKind::Error);
    assert_eq!(class_kind(LiquidityClass::Scarce), StatusKind::Monitoring);
    assert_eq!(class_kind(LiquidityClass::Quiet), StatusKind::Warning);
    assert_eq!(class_kind(LiquidityClass::Oversupplied), StatusKind::Warning);
    assert_eq!(class_kind(LiquidityClass::Balanced), StatusKind::Idle);
    assert_eq!(actionability_kind(Actionability::InstantExecutable), StatusKind::Idle);
    assert_eq!(actionability_kind(Actionability::ProbeRequired), StatusKind::Warning);
    assert_eq!(actionability_kind(Actionability::SuspiciousOutlier), StatusKind::Error);
}

#[test]
fn short_labels_come_from_the_catalogue() {
    let zh = text(UiLanguage::Chinese);
    assert_eq!(freshness_short(&zh, FreshnessStatus::Fresh), "新鲜");
    assert_eq!(freshness_short(&zh, FreshnessStatus::Usable), "偏旧");
    assert_eq!(freshness_short(&zh, FreshnessStatus::Stale), "过期");
    assert_eq!(freshness_short(&zh, FreshnessStatus::Archived), "归档");
    let en = text(UiLanguage::English);
    assert_eq!(verdict_short(&en, Actionability::MakerTheoretical), en.radar_verdict_maker);
    assert_eq!(verdict_short(&en, Actionability::InstantExecutable), en.radar_verdict_instant);
}

#[test]
fn the_editable_roles_come_in_page_order() {
    assert_eq!(
        FocusChoice::editable(),
        [FocusChoice::Target, FocusChoice::Bridge, FocusChoice::WatchOnly, FocusChoice::Unlisted]
    );
    let en = text(UiLanguage::English);
    assert_eq!(FocusChoice::Bridge.label(&en), en.role_bridge);
}

#[test]
fn a_unit_price_reads_to_two_places() {
    let ratio = |numerator: u64, denominator: u64| Ratio {
        numerator,
        denominator,
        text: "1:?".to_owned(),
    };
    assert_eq!(per_unit_text(&ratio(91, 2)), "45.50");
    assert_eq!(per_unit_text(&ratio(58_469_137, 200_000)), "292.35");
    assert_eq!(per_unit_text(&ratio(933, 100)), "9.33");
    assert_eq!(per_unit_text(&ratio(93, 10)), "9.30");
    assert_eq!(per_unit_text(&ratio(9, 1)), "9.00");
    assert_eq!(per_unit_text(&ratio(1, 3)), "0.33");
    assert_eq!(per_unit_text(&ratio(2, 3)), "0.67");
    assert_eq!(per_unit_text(&ratio(1, 200)), "0.01");
    assert_eq!(per_unit_text(&ratio(1, 201)), "0.00");
    assert_eq!(per_unit_text(&ratio(101, 100)), "1.01");
    assert_eq!(per_unit_text(&ratio(5, 0)), "1:?");
}

#[test]
fn deepest_first_keeps_equal_routes_in_ranking_order() {
    let quote = |path: &[&str], depth: Option<u64>| RouteQuote {
        route_asset_ids: path.iter().map(|id| (*id).to_owned()).collect(),
        fillable_input: depth,
    };
    let quotes = || {
        vec![
            quote(&["a", "z"], Some(5)),
            quote(&["b", "z"], None),
            quote(&["c", "z"], Some(9)),
            quote(&["d", "z"], Some(5)),
            quote(&["e", "z"], Some(0)),
        ]
    };
    let firsts = |list: &[RouteQuote]| -> Vec<String> {
        list.iter().map(|q| q.route_asset_ids[0].clone()).collect()
    };
    assert_eq!(firsts(&sorted_quotes(quotes(), false)), ["a", "b", "c", "d", "e"]);
    assert_eq!(firsts(&sorted_quotes(quotes(), true)), ["c", "a", "d", "b", "e"]);
    let sorted = sorted_quotes(quotes(), true);
    let wanted = vec!["d".to_owned(), "z".to_owned()];
    assert_eq!(selected_quote(&sorted, Some(&wanted)), Some(2));
    assert_eq!(selected_quote(&quotes(), Some(&wanted)), Some(3));
    assert_eq!(selected_quote(&sorted, None), None);
    let missing = vec!["d".to_owned()];
    assert_eq!(selected_quote(&sorted, Some(&missing)), None);
}

#[test]
fn a_chosen_pair_sticks_and_is_pushed_to_the_pickers_once() {
    let mut state = PairState::new();
    state.choose_pair(Some("chaos"), None);
    assert!(state.report_pair.is_none(), "one empty picker chooses nothing");
    state.choose_pair(Some("chaos"), Some("divine"));
    assert_eq!(state.report_pair, Some(("chaos".to_owned(), "divine".to_owned())));
    assert!(state.chosen_by_user && state.report_stale);
    state.report_stale = false;
    state.choose_pair(Some("chaos"), Some("divine"));
    assert!(!state.report_stale, "the same pair again is no change");
    assert_eq!(state.pair_to_push(), Some(("chaos".to_owned(), "divine".to_owned())));
    assert_eq!(state.pair_to_push(), None);
    state.swap_pair(Some("chaos"), Some("divine"));
    assert_eq!(state.report_pair, Some(("divine".to_owned(), "chaos".to_owned())));
    assert!(state.report_stale);
    assert_eq!(state.pair_to_push(), Some(("divine".to_owned(), "chaos".to_owned())));
}
