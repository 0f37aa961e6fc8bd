use ptt_app::palette::{
    active_hex, active_palette, dark, light, over_game_hex, palette_mode, palette_mode_for,
    set_palette, ActiveMode, Palette, PaletteMode, Token, UiTheme,
};

const ALL_TOKENS: [Token; 43] = [
    Token::Canvas,
    Token::Panel,
    Token::Rail,
    Token::RailDeep,
    Token::Zebra,
    Token::Well,
    Token::Hover,
    Token::Selected,
    Token::SelectedWash,
    Token::Pressed,
    Token::HairlineSoft,
    Token::Hairline,
    Token::HairlineStrong,
    Token::Titlebar,
    Token::TitlebarText,
    Token::TitlebarBorder,
    Token::TextPrimary,
    Token::TextSecondary,
    Token::TextMeta,
    Token::TextDisabled,
    Token::TextGhost,
    Token::TextData,
    Token::Accent,
    Token::AccentText,
    Token::AccentLine,
    Token::AccentWash,
    Token::AccentFill,
    Token::TrendFlatFill,
    Token::AccentHover,
    Token::AccentPressed,
    Token::OnAccent,
    Token::AccentChipText,
    Token::Fresh,
    Token::Warn,
    Token::WarnText,
    Token::WarnLine,
    Token::WarnWash,
    Token::Danger,
    Token::DangerText,
    Token::DangerLine,
    Token::DangerWash,
    Token::NeutralDot,
    Token::DisabledDot,
];

fn palettes() -> [(PaletteMode, Palette); 2] {
    [(PaletteMode::Dark, dark()), (PaletteMode::Light, light())]
}

/// WCAG 2.1 relative luminance: each channel back to linear light, then
/// weighted by the eye's sensitivity.
fn relative_luminance(hex: u32) -> f32 {
    let channel = |shift: u32| {
        let raw = f32::from(((hex >> shift) & 0xFF) as u8) / 255.0;
        if raw <= 0.03928 {
            raw / 12.92
        } else {
            ((raw + 0.055) / 1.055).powf(2.4)
        }
    };
    0.2126 * channel(16) + 0.7152 * channel(8) + 0.0722 * channel(0)
}

/// The WCAG contrast ratio (L + 0.05) / (L + 0.05), brighter over darker.
fn contrast_ratio(a: u32, b: u32) -> f32 {
    let (mut hi, mut lo) = (relative_luminance(a), relative_luminance(b));
    if hi < lo {
        std::mem::swap(&mut hi, &mut lo);
    }
    (hi + 0.05) / (lo + 0.05)
}

#[test]
fn body_text_stays_readable_on_panels_in_both_palettes() {
    for (mode, palette) in palettes() {
        let primary = contrast_ratio(palette.text_primary, palette.panel);
        assert!(
            primary >= 7.0,
            "{mode:?}: primary text on panel is only {primary:.1}:1, below 7:1"
        );
        let secondary = contrast_ratio(palette.text_secondary, palette.panel);
        assert!(
            secondary >= 4.5,
            "{mode:?}: secondary text on panel is only {secondary:.1}:1, below 4.5:1"
        );
        for (surface, name) in [
            (palette.panel, "panel"),
            (palette.rail, "rail"),
            (palette.rail_deep, "rail_deep"),
        ] {
            let meta = contrast_ratio(palette.text_meta, surface);
            assert!(
                meta >= 4.0,
                "{mode:?}: meta text on {name} is only {meta:.1}:1, below the 4.0 floor"
            );
        }
    }
}

#[test]
fn the_primary_button_stays_legible_in_all_three_states_in_both_palettes() {
    for (mode, palette) in palettes() {
        for (fill, state) in [
            (palette.accent, "resting"),
            (palette.accent_hover, "hover"),
            (palette.accent_pressed, "pressed"),
        ] {
            let ratio = contrast_ratio(palette.on_accent, fill);
            assert!(
                ratio >= 4.5,
                "{mode:?}: the label on the {state} fill is only {ratio:.1}:1"
            );
        }
    }
}

#[test]
fn the_saved_setting_maps_to_the_palette_of_the_same_name() {
    assert_eq!(palette_mode_for(UiTheme::Dark), PaletteMode::Dark);
    assert_eq!(palette_mode_for(UiTheme::Light), PaletteMode::Light);
}

#[test]
fn the_light_palette_is_not_a_copy_of_the_dark_one() {
    for token in ALL_TOKENS {
        assert_ne!(
            dark().hex(token),
            light().hex(token),
            "{token:?} holds the same value in both palettes; \
             the light entry looks like an un-edited copy"
        );
    }
}

#[test]
fn a_slot_reads_its_own_field() {
    let d = dark();
    assert_eq!(d.hex(Token::Canvas), d.canvas);
    assert_eq!(d.hex(Token::Panel), d.panel);
    assert_eq!(d.hex(Token::TextMeta), d.text_meta);
    assert_eq!(d.hex(Token::OnAccent), d.on_accent);
    assert_eq!(d.hex(Token::DisabledDot), d.disabled_dot);
    let l = light();
    assert_eq!(l.hex(Token::DisabledDot), 0xCFD6DF);
}

#[test]
fn the_active_palette_follows_the_last_switch() {
    let mut active = ActiveMode::new();
    assert_eq!(palette_mode(&active), PaletteMode::Dark);
    assert_eq!(active_palette(&active), dark());
    set_palette(&mut active, PaletteMode::Light);
    assert_eq!(palette_mode(&active), PaletteMode::Light);
    assert_eq!(active_palette(&active), light());
    for token in ALL_TOKENS {
        assert_eq!(active_hex(&active, token), light().hex(token));
        assert_eq!(over_game_hex(token), dark().hex(token));
    }
    set_palette(&mut active, PaletteMode::Dark);
    assert_eq!(active_hex(&active, Token::Panel), dark().panel);
    assert_eq!(PaletteMode::default(), PaletteMode::Dark);
}
