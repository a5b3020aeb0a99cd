use snora::paint::{Border, BoxStyle, ButtonStyle, Measure, Paint, RadiusRole, Role, Shadow, Space, Status, Tier, Tone, Tweak};
use snora::styles::{
    danger, ghost, primary, secondary, card_raised, card_selected,
    card_surface, chip_style, chip_style_selected, chip_style_unselected, chrome_container_style,
    chrome_container_style_with_radius, close_button_style, crumb_button_style, dialog_card_padding,
    dialog_card_style, dim_pole, intent_colors, menu_button_style, notice_accent_bar_style,
    notice_accent_color, notice_outer_style, toned, separator_color, sheet_surface_style,
    sidebar_active_color, sidebar_button_style, tab_bar_container_style, tab_bar_rule_style,
    tab_button_style, tab_indicator_style, toast_style, unstyled_tooltip_body_style,
    DIM_ALPHA_PERCENT, UNSTYLED_DIM_ALPHA_PERCENT,
};
use snora::styles::{button_style, ButtonKind};
use snora::toast::ToastIntent;

const ALL_STATUSES: [Status; 4] = [Status::Active, Status::Hovered, Status::Pressed, Status::Disabled];
const ALL_TONES: [Tone; 6] = [Tone::Neutral, Tone::Accent, Tone::Success, Tone::Warning, Tone::Danger, Tone::Info];
const ALL_INTENTS: [ToastIntent; 5] = [
    ToastIntent::Debug,
    ToastIntent::Info,
    ToastIntent::Success,
    ToastIntent::Warning,
    ToastIntent::Error,
];

fn square() -> Measure {
    Measure::Px(0)
}

// Chips.

#[test]
fn chip_style_selected_all_statuses_all_presets() {
    for s in ALL_STATUSES {
        let style = chip_style_selected(s);
        assert!(style.background.is_some(), "selected {s:?}: background must be set");
    }
}

#[test]
fn chip_style_unselected_all_statuses_all_presets() {
    for s in ALL_STATUSES {
        let style = chip_style_unselected(s);
        assert!(style.background.is_some(), "unselected {s:?}: background must be set");
    }
}

#[test]
fn selected_active_uses_accent_text_foreground() {
    let style = chip_style_selected(Status::Active);
    assert_eq!(
        style.text,
        Paint::Token(Role::AccentText, Tweak::Plain),
        "selected active must use accent_text for contrast"
    );
}

#[test]
fn selected_chip_darkens_on_interaction() {
    assert_eq!(chip_style_selected(Status::Hovered).background, Some(Paint::Token(Role::Accent, Tweak::Darken(6))));
    assert_eq!(chip_style_selected(Status::Pressed).background, Some(Paint::Token(Role::Accent, Tweak::Darken(12))));
    assert_eq!(chip_style_selected(Status::Disabled).background, Some(Paint::Token(Role::Accent, Tweak::SetAlpha(50))));
    for s in ALL_STATUSES {
        assert_eq!(chip_style_selected(s).text, Paint::Token(Role::AccentText, Tweak::Plain));
        assert_eq!(chip_style_selected(s).border.radius, Measure::Radius(RadiusRole::Pill));
    }
}

#[test]
fn chip_style_dispatches_on_selection() {
    for s in ALL_STATUSES {
        assert_eq!(chip_style(true, s), chip_style_selected(s));
        assert_eq!(chip_style(false, s), chip_style_unselected(s));
    }
    assert_eq!(chip_style(false, Status::Active).text, Paint::Token(Role::TextSecondary, Tweak::Plain));
}

// Buttons.

#[test]
fn primary_returns_valid_style_for_all_statuses() {
    for s in ALL_STATUSES {
        let style = primary(s);
        assert!(style.background.is_some(), "primary {s:?}: background must be set");
    }
}

#[test]
fn secondary_active_has_transparent_background() {
    let style = secondary(Status::Active);
    assert_eq!(style.background, Some(Paint::Transparent), "secondary active should be transparent");
}

#[test]
fn ghost_active_has_transparent_background() {
    let style = ghost(Status::Active);
    assert_eq!(style.background, Some(Paint::Transparent), "ghost active should be transparent");
}

#[test]
fn danger_all_statuses_compile_and_produce_background() {
    for s in ALL_STATUSES {
        let style = danger(s);
        assert!(style.background.is_some(), "danger {s:?}: background must be set");
    }
}

#[test]
fn disabled_reduces_alpha() {
    let active = primary(Status::Active);
    let disabled = primary(Status::Disabled);
    assert_eq!(active.text, Paint::Token(Role::AccentText, Tweak::Plain));
    match disabled.text {
        Paint::Token(Role::AccentText, Tweak::ScaleAlpha(p)) => {
            assert!(p < 100, "disabled alpha should be below the active one")
        },
        other => panic!("disabled text should fade the accent text, got {other:?}"),
    }
}

#[test]
fn all_variants_use_all_presets() {
    for status in ALL_STATUSES {
        let _ = primary(status);
        let _ = secondary(status);
        let _ = ghost(status);
        let _ = danger(status);
    }
}

#[test]
fn filled_buttons_follow_the_state() {
    assert_eq!(primary(Status::Hovered).background, Some(Paint::Token(Role::Accent, Tweak::Lighten(6))));
    assert_eq!(primary(Status::Pressed).background, Some(Paint::Token(Role::Accent, Tweak::Darken(6))));
    assert_eq!(danger(Status::Active).background, Some(Paint::Token(Role::Danger, Tweak::Plain)));
    assert_eq!(danger(Status::Active).text, Paint::Token(Role::DangerText, Tweak::Plain));
    assert_eq!(primary(Status::Active).border.radius, Measure::Radius(RadiusRole::Md));
}

#[test]
fn outlined_and_ghost_buttons_tint_on_interaction() {
    assert_eq!(secondary(Status::Hovered).background, Some(Paint::Token(Role::Accent, Tweak::SetAlpha(8))));
    assert_eq!(ghost(Status::Pressed).background, Some(Paint::Token(Role::Accent, Tweak::SetAlpha(14))));
    assert_eq!(secondary(Status::Active).border.width, 1);
    assert_eq!(ghost(Status::Active).border.width, 0);
    assert_eq!(ghost(Status::Disabled).text, Paint::Token(Role::Accent, Tweak::ScaleAlpha(45)));
}

// Cards.

#[test]
fn all_card_styles_produce_background_for_all_presets() {
    assert!(card_surface().background.is_some(), "card_surface no background");
    assert!(card_raised().background.is_some(), "card_raised no background");
    assert!(card_selected().background.is_some(), "card_selected no background");
}

#[test]
fn card_selected_has_wider_border_than_surface() {
    assert!(
        card_selected().border.width > card_surface().border.width,
        "card_selected border should be wider than card_surface"
    );
}

#[test]
fn card_raised_has_shadow_offset() {
    assert_eq!(card_raised().shadow, Shadow::Soft, "card_raised should have a shadow");
}

#[test]
fn card_style_matches_token_roles_exactly() {
    let card = dialog_card_style();
    assert_eq!(
        card.background,
        Some(Paint::Token(Role::SurfaceRaised, Tweak::Plain)),
        "card fill must equal surface_raised exactly"
    );
    assert_eq!(card.border.color, Paint::Token(Role::Border, Tweak::Plain), "card border color must equal the border role exactly");
    assert_eq!(card.border.radius, Measure::Radius(RadiusRole::Lg), "card border radius must equal radius.lg exactly");
    assert_eq!(dialog_card_padding(), Measure::Spacing(Space::Lg), "card padding must equal spacing.lg exactly");
    assert_eq!(card.shadow, Shadow::Flat, "card must be border-defined, not shadow-defined");
    assert_eq!(card.text, Some(Paint::Token(Role::TextPrimary, Tweak::Plain)));
}

// Notices and progress bars.

#[test]
fn all_tones_produce_valid_style_for_all_presets() {
    for tone in ALL_TONES {
        let s = toned(tone);
        assert_eq!(s.bar, notice_accent_color(tone));
        assert_eq!(s.track, Paint::Token(Role::Surface, Tweak::Plain));
    }
}

#[test]
fn tones_map_to_their_roles() {
    let expected = [Role::Border, Role::Accent, Role::Success, Role::Warning, Role::Danger, Role::Info];
    for (tone, role) in ALL_TONES.into_iter().zip(expected) {
        assert_eq!(notice_accent_color(tone), Paint::Token(role, Tweak::Plain));
    }
}

#[test]
fn notice_parts_wrap_the_given_colours() {
    let bar = notice_accent_bar_style(Paint::Black);
    assert_eq!(bar.background, Some(Paint::Black));
    assert_eq!(bar.border.width, 0);
    let outer = notice_outer_style(Paint::White, Paint::WarningAmber, Measure::Px(4));
    assert_eq!(
        outer,
        BoxStyle {
            background: Some(Paint::White),
            text: None,
            border: Border { color: Paint::WarningAmber, width: 1, radius: Measure::Px(4) },
            shadow: Shadow::Flat,
        }
    );
}

// Tabs.

#[test]
fn tab_button_style_draws_no_shadow() {
    for is_active in [true, false] {
        for status in ALL_STATUSES {
            let style = tab_button_style(status, is_active);
            assert_eq!(
                style.shadow,
                Shadow::Flat,
                "tab_button_style(is_active={is_active}, {status:?}) draws a shadow"
            );
        }
    }
}

#[test]
fn tab_button_style_is_square() {
    for is_active in [true, false] {
        for status in ALL_STATUSES {
            let radius = tab_button_style(status, is_active).border.radius;
            assert_eq!(radius, square(), "tab_button_style(is_active={is_active}, {status:?}) has a corner radius");
        }
    }
}

#[test]
fn tab_bar_container_style_paints_no_border() {
    let border = tab_bar_container_style().border;
    assert_eq!(border.width, 0, "the tab bar container paints a {}px border", border.width);
}

#[test]
fn tab_indicator_style_is_square_and_solid() {
    let style = tab_indicator_style();
    assert_eq!(style.border.radius, square(), "the indicator has a corner radius; it must be a straight line");
    assert!(style.background.is_some(), "the indicator paints no background, so nothing is drawn");
    assert_eq!(style.shadow, Shadow::Flat, "the indicator draws a shadow");
}

#[test]
fn tab_bar_rule_style_is_square_and_solid() {
    let style = tab_bar_rule_style();
    assert_eq!(style.border.radius, square(), "the bar's bottom rule has a corner radius");
    assert!(style.background.is_some(), "the bar's bottom rule paints no background, so nothing is drawn");
}

#[test]
fn inactive_tab_is_muted_until_hovered() {
    let muted = Paint::Mix { from: Tier::BackgroundBaseText, toward: Tier::BackgroundBase, percent: 30 };
    assert_eq!(tab_button_style(Status::Active, false).text, muted);
    assert_eq!(tab_button_style(Status::Active, false).background, None);
    assert_eq!(tab_button_style(Status::Hovered, false).text, Paint::Theme(Tier::BackgroundBaseText));
    assert_eq!(tab_button_style(Status::Hovered, false).background, Some(Paint::Theme(Tier::BackgroundWeak)));
    for s in ALL_STATUSES {
        assert_eq!(tab_button_style(s, true), tab_button_style(Status::Active, true));
    }
}

// Theme-driven chrome.

#[test]
fn menu_entries_look_the_same_in_every_state() {
    for s in ALL_STATUSES {
        assert_eq!(menu_button_style(s), menu_button_style(Status::Active));
    }
    assert_eq!(menu_button_style(Status::Active).background, None);
    assert_eq!(menu_button_style(Status::Active).text, Paint::Theme(Tier::BackgroundBaseText));
}

#[test]
fn chrome_container_is_outlined_in_page_text() {
    let square_chrome = chrome_container_style();
    assert_eq!(square_chrome.border.radius, square());
    assert_eq!(square_chrome.border.width, 1);
    assert_eq!(square_chrome.border.color, Paint::Theme(Tier::BackgroundBaseText));
    assert_eq!(square_chrome.background, None);
    let rounded = chrome_container_style_with_radius(Measure::Radius(RadiusRole::Sm));
    assert_eq!(rounded, BoxStyle { border: Border { radius: Measure::Radius(RadiusRole::Sm), ..square_chrome.border }, ..square_chrome });
}

#[test]
fn sidebar_highlights_the_active_item_only() {
    let r = Measure::Px(6);
    for s in ALL_STATUSES {
        let active = sidebar_button_style(s, true, r);
        assert_eq!(active.background, Some(sidebar_active_color()));
        assert_eq!(active.text, Paint::Theme(Tier::PrimaryStrongText));
    }
    assert_eq!(sidebar_button_style(Status::Active, false, r).background, None);
    assert_eq!(sidebar_button_style(Status::Hovered, false, r).background, Some(Paint::Theme(Tier::BackgroundWeak)));
    assert_eq!(sidebar_button_style(Status::Pressed, false, r).background, None);
    assert_eq!(sidebar_button_style(Status::Active, false, r).border.radius, r);
}

#[test]
fn unstyled_tooltip_body_is_outlined() {
    let s = unstyled_tooltip_body_style();
    assert_eq!(s.background, Some(Paint::Theme(Tier::BackgroundBase)));
    assert_eq!(s.text, Some(Paint::Theme(Tier::BackgroundBaseText)));
    assert_eq!(s.border.width, 1);
    assert_eq!(s.border.radius, Measure::Px(6));
}

#[test]
fn crumbs_fill_only_on_interaction() {
    let r = Measure::Px(3);
    assert_eq!(crumb_button_style(Status::Active, r).background, None);
    assert_eq!(crumb_button_style(Status::Disabled, r).background, None);
    assert_eq!(crumb_button_style(Status::Hovered, r).background, Some(Paint::Theme(Tier::BackgroundWeak)));
    assert_eq!(crumb_button_style(Status::Pressed, r).background, Some(Paint::Theme(Tier::BackgroundWeak)));
    assert_eq!(crumb_button_style(Status::Active, r).text, Paint::Theme(Tier::BackgroundBaseText));
    assert_eq!(crumb_button_style(Status::Hovered, r).text, Paint::Theme(Tier::BackgroundBaseText));
    assert_eq!(
        separator_color(),
        Paint::Mix { from: Tier::BackgroundBaseText, toward: Tier::BackgroundBase, percent: 50 }
    );
}

// Toasts, sheets and the dim.

#[test]
fn toast_colours_per_intent() {
    assert_eq!(intent_colors(ToastIntent::Warning), (Paint::WarningAmber, Paint::Black));
    assert_eq!(intent_colors(ToastIntent::Info), (Paint::Theme(Tier::PrimaryStrong), Paint::Black));
    assert_eq!(
        intent_colors(ToastIntent::Error),
        (Paint::Theme(Tier::DangerBase), Paint::Theme(Tier::DangerBaseText))
    );
    for intent in ALL_INTENTS {
        let (fill, text) = intent_colors(intent);
        let body = toast_style(intent);
        assert_eq!(body.background, Some(fill));
        assert_eq!(body.text, Some(text));
        assert_eq!(body.border.radius, Measure::Px(8));
    }
}

#[test]
fn dismiss_mark_matches_the_toast_text() {
    for intent in ALL_INTENTS {
        for status in ALL_STATUSES {
            let mark: ButtonStyle = close_button_style(intent, status);
            assert_eq!(Some(mark.text), toast_style(intent).text);
            assert_eq!(mark.background, None);
        }
    }
}

#[test]
fn sheet_panel_surface() {
    let s = sheet_surface_style();
    assert_eq!(s.background, Some(Paint::Theme(Tier::BackgroundBase)));
    assert_eq!(s.border, Border { color: Paint::Theme(Tier::BackgroundWeak), width: 1, radius: Measure::Px(12) });
}

#[test]
fn dim_color_picks_the_opposite_pole() {
    assert_eq!(dim_pole(false), Paint::Black, "a light (white) background must pick the black pole");
    assert_eq!(dim_pole(true), Paint::White, "a dark (black) background must pick the white pole");
}

#[test]
fn dim_alpha_is_always_dim_alpha_constant() {
    assert_eq!(DIM_ALPHA_PERCENT, 44);
    assert_eq!(UNSTYLED_DIM_ALPHA_PERCENT, 40);
}

#[test]
fn button_kinds_name_the_four_token_buttons() {
    for s in ALL_STATUSES {
        assert_eq!(button_style(ButtonKind::Primary, s), primary(s));
        assert_eq!(button_style(ButtonKind::Secondary, s), secondary(s));
        assert_eq!(button_style(ButtonKind::Borderless, s), ghost(s));
        assert_eq!(button_style(ButtonKind::Danger, s), danger(s));
    }
}
