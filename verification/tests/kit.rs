use ptt_app::about::author_and_email;
use ptt_app::page::PageData;
use ptt_app::palette::Token;
use ptt_app::picker::{fold_query, AssetChoice, AssetList};
use ptt_app::status::{
    button_style, chip_stroke, overflow_chip_label, segment_slots, shown_chip_count, spaced,
    LedgerButton, LogLine, StatusKind, StatusSegment, TreeMarker, TreeRowSpec, TreeState,
};
use ptt_app::text::{loading_label, text, UiLanguage};

fn choices() -> Vec<AssetChoice> {
    vec![
        AssetChoice::new(
            "divine-orb".to_owned(),
            "神聖石".to_owned(),
            vec!["divineorb".to_owned(), "神聖石".to_owned()],
        ),
        AssetChoice::new(
            "chaos-orb".to_owned(),
            "混沌石".to_owned(),
            vec!["chaosorb".to_owned(), "混沌石".to_owned()],
        ),
    ]
}

fn labels(items: &[AssetChoice]) -> Vec<String> {
    items.iter().map(|item| item.label().to_owned()).collect()
}

#[test]
fn the_author_line_splits_into_name_and_mail() {
    assert_eq!(
        author_and_email("Jane Doe <jane@example.invalid>"),
        ("Jane Doe".to_owned(), "jane@example.invalid".to_owned())
    );
    assert_eq!(
        author_and_email("  Jane <  jane@x >> "),
        ("Jane".to_owned(), "jane@x >>".to_owned())
    );
    assert_eq!(
        author_and_email("Jane <jane@x>>"),
        ("Jane".to_owned(), "jane@x".to_owned())
    );
    assert_eq!(author_and_email("Jane"), ("Jane".to_owned(), String::new()));
    assert_eq!(author_and_email("<a@b>"), (String::new(), "a@b".to_owned()));
    assert_eq!(author_and_email("A <b> <c>"), ("A".to_owned(), "b> <c".to_owned()));
}

fn finds(query: &str, label: &str) -> bool {
    AssetList::filter(&choices(), query)
        .iter()
        .any(|choice| choice.label() == label)
}

#[test]
fn a_chinese_list_is_searchable_in_english() {
    for query in ["div", "Divine Orb", "divine orb", "DIVINE", "divine-orb"] {
        assert!(finds(query, "神聖石"), "{query:?} should find divine orb");
    }
    assert!(finds("神聖石", "神聖石"));
}

#[test]
fn a_query_is_folded_before_it_is_looked_for() {
    assert_eq!(fold_query("Divine Orb"), "divineorb");
    assert_eq!(fold_query("DIVINE-ORB_"), "divineorb");
    assert_eq!(fold_query(" 神聖 石 "), "神聖石");
    assert_eq!(fold_query("Orb #2!"), "orb2");
    assert_eq!(fold_query("- . "), "");
    let items = choices();
    assert_eq!(labels(&AssetList::filter(&items, "orb")), ["神聖石", "混沌石"]);
    assert_eq!(labels(&AssetList::filter(&items, " -- ")), ["神聖石", "混沌石"]);
    assert!(items[1].matches("Chaos Orb"));
    assert!(!items[1].matches("divine"));
    assert_eq!(items[0].id(), "divine-orb");
}

#[test]
fn an_empty_query_keeps_the_whole_list() {
    let items = choices();
    assert_eq!(AssetList::filter(&items, "").len(), items.len());
    let mut list = AssetList::new(choices());
    assert_eq!(list.matched().len(), 2);
    list.search("chaos");
    assert_eq!(labels(list.matched()), ["混沌石"]);
    assert_eq!(list.items().len(), 2);
}

#[test]
fn a_query_naming_nothing_matches_nothing() {
    assert!(AssetList::filter(&choices(), "zzzznotacurrency").is_empty());
}

#[test]
fn a_page_without_rows_has_only_its_message() {
    let empty: PageData<u8, u8, u8> = PageData::default();
    assert!(empty.is_content());
    assert!(PageData::<u8, u8, u8>::Loading.is_content());
    assert!(PageData::<u8, u8, u8>::WaitingForPair.is_content());
    assert!(PageData::<u8, u8, u8>::Text(Vec::new()).is_content());
    assert!(!PageData::<u8, u8, u8>::Text(vec!["a".to_owned()]).is_content());
    assert!(!PageData::<u8, u8, u8>::Probes(Box::new(1)).is_content());
    assert!(!PageData::<u8, u8, u8>::Opportunities(Box::new(1)).is_content());
    assert!(!PageData::<u8, u8, u8>::Convert(Box::new(1)).is_content());
    assert!(PageData::<u8, u8, u8>::Failed("x".to_owned()).is_content());
}

#[test]
fn the_loading_word_is_in_the_readers_language() {
    assert_eq!(loading_label(UiLanguage::English), "reading the book…");
    assert_eq!(loading_label(UiLanguage::Chinese), "正在读取盘口…");
}

#[test]
fn status_colours_keep_their_meaning() {
    assert_eq!(StatusKind::Fresh.dot(), Token::Fresh);
    assert_eq!(StatusKind::Monitoring.dot(), Token::Accent);
    assert_eq!(StatusKind::Hit.dot(), Token::Danger);
    assert_eq!(StatusKind::Idle.text(), Token::TextSecondary);
    assert_eq!(StatusKind::Warning.text(), Token::WarnText);
    assert_eq!(StatusKind::Disabled.dot_ring(), Some(Token::Hairline));
    assert_eq!(StatusKind::Idle.dot_ring(), None);
    assert!(StatusKind::Monitoring.breathes());
    assert!(!StatusKind::Fresh.breathes());
    assert_eq!(chip_stroke(StatusKind::Error), Token::DangerLine);
    assert_eq!(chip_stroke(StatusKind::Fresh), Token::Hairline);
}

#[test]
fn the_primary_button_is_the_only_emphasised_one() {
    let primary = button_style(LedgerButton::Primary);
    assert_eq!(primary.fill, Some(Token::Accent));
    assert_eq!(primary.label, Token::OnAccent);
    assert_eq!(primary.hover, Token::AccentHover);
    assert_eq!(primary.pressed, Token::AccentPressed);
    assert!(primary.emphasised);
    assert_eq!(button_style(LedgerButton::Quiet).fill, None);
    assert_eq!(button_style(LedgerButton::Destructive).label, Token::Danger);
    assert!(!button_style(LedgerButton::Secondary).emphasised);
}

#[test]
fn tree_rows_indent_by_depth_and_mark_their_state() {
    let row = TreeRowSpec {
        depth: 0,
        state: TreeState::Active,
        expander: None,
        label: "a",
        trailing: "",
        trailing_color: None,
    };
    let style = row.style();
    assert_eq!(style.indent, 11);
    assert_eq!(style.background, Some(Token::Panel));
    assert!(style.accent_bar);
    assert!(style.semibold);
    assert_eq!(style.marker, TreeMarker::Dot(Token::Accent));
    assert_eq!(style.trailing, Token::TextMeta);
    let nested = TreeRowSpec {
        depth: 5,
        state: TreeState::Disabled,
        expander: Some(true),
        label: "b",
        trailing: "3",
        trailing_color: Some(Token::WarnText),
    };
    let style = nested.style();
    assert_eq!(style.indent, 40);
    assert_eq!(style.label, Token::TextDisabled);
    assert_eq!(style.marker, TreeMarker::Arrow { expanded: true });
    assert_eq!(style.trailing, Token::WarnText);
}

#[test]
fn the_selected_segment_is_washed_in_accent() {
    assert_eq!(segment_slots(1, 1), (Token::AccentWash, Token::AccentText));
    assert_eq!(segment_slots(0, 1), (Token::Panel, Token::TextSecondary));
    let plain = StatusSegment { text: "x", color: None };
    assert_eq!(plain.text_slot(), Token::TextSecondary);
    let coloured = StatusSegment { text: "x", color: Some(Token::Fresh) };
    assert_eq!(coloured.text_slot(), Token::Fresh);
}

#[test]
fn titles_are_spaced_with_thin_spaces() {
    assert_eq!(spaced("ABC"), "A\u{2009}B\u{2009}C");
    assert_eq!(spaced("A"), "A");
    assert_eq!(spaced(""), "");
    assert_eq!(spaced("监视").chars().count(), 3);
}

#[test]
fn capped_chips_say_how_many_are_left_out() {
    assert_eq!(shown_chip_count(3, 5), 3);
    assert_eq!(shown_chip_count(8, 5), 5);
    assert_eq!(overflow_chip_label(3, 5), None);
    assert_eq!(overflow_chip_label(5, 5), None);
    assert_eq!(overflow_chip_label(8, 5).as_deref(), Some("+3"));
}

#[test]
fn the_catalogue_has_words_for_both_languages() {
    for language in [UiLanguage::English, UiLanguage::Chinese] {
        let t = text(language);
        assert!(!t.update_state_idle.is_empty());
        assert!(!t.role_target.is_empty());
    }
}

#[test]
fn log_lines_are_drawn_by_kind() {
    let meta = LogLine::Meta("band 01 · 29 ms".to_owned());
    assert_eq!(meta.style().text, Token::TextMeta);
    assert!(!meta.style().indented);
    assert_eq!(meta.text(), "band 01 · 29 ms");
    let text = LogLine::Text("x".to_owned()).style();
    assert_eq!((text.text, text.indented, text.wash), (Token::TextSecondary, true, None));
    let matched = LogLine::Match("y".to_owned()).style();
    assert_eq!((matched.text, matched.indented), (Token::AccentText, true));
    let hit = LogLine::Hit("z".to_owned()).style();
    assert_eq!((hit.wash, hit.bar), (Some(Token::AccentWash), Some(Token::Accent)));
}
