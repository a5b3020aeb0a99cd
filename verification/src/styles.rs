//! The styles of the prefab surfaces: token-driven buttons, chips,
//! cards, notices and progress bars, and the theme-driven chrome (menus,
//! header and footer, sidebar, tabs, breadcrumbs, toasts, sheets).

use vstd::prelude::*;
use crate::paint::{Border, BoxStyle, ButtonStyle, Measure, Paint, ProgressStyle, RadiusRole, Role, Shadow, Space, Status, Tier, Tone, Tweak, no_border};
use crate::toast::ToastIntent;

verus! {

// ---------------------------------------------------------------------
// Token-driven buttons.
// ---------------------------------------------------------------------

/// How a filled button's colour changes with its state: a touch lighter
/// when hovered, darker when pressed, faded when disabled.
pub open spec fn fill_tweak(status: Status) -> Tweak {
    match status {
        Status::Active => Tweak::Plain,
        Status::Hovered => Tweak::Lighten(6),
        Status::Pressed => Tweak::Darken(6),
        Status::Disabled => Tweak::ScaleAlpha(45),
    }
}

/// The label of a filled button: faded only when disabled.
pub open spec fn label_tweak(status: Status) -> Tweak {
    if status is Disabled { Tweak::ScaleAlpha(45) } else { Tweak::Plain }
}

fn fill_tweak_of(status: Status) -> (t: Tweak)
    ensures
        t == fill_tweak(status),
{
    match status {
        Status::Active => Tweak::Plain,
        Status::Hovered => Tweak::Lighten(6),
        Status::Pressed => Tweak::Darken(6),
        Status::Disabled => Tweak::ScaleAlpha(45),
    }
}

fn label_tweak_of(status: Status) -> (t: Tweak)
    ensures
        t == label_tweak(status),
{
    match status {
        Status::Disabled => Tweak::ScaleAlpha(45),
        _ => Tweak::Plain,
    }
}

/// A filled button on `fill` with its paired `label` role.
pub open spec fn filled_button(fill: Role, label: Role, status: Status) -> ButtonStyle {
    ButtonStyle {
        background: Some(Paint::Token(fill, fill_tweak(status))),
        text: Paint::Token(label, label_tweak(status)),
        border: Border { color: Paint::Transparent, width: 0, radius: Measure::Radius(RadiusRole::Md) },
        shadow: Shadow::Flat,
    }
}

fn filled(fill: Role, label: Role, status: Status) -> (style: ButtonStyle)
    ensures
        style == filled_button(fill, label, status),
{
    ButtonStyle {
        background: Some(Paint::Token(fill, fill_tweak_of(status))),
        text: Paint::Token(label, label_tweak_of(status)),
        border: Border { color: Paint::Transparent, width: 0, radius: Measure::Radius(RadiusRole::Md) },
        shadow: Shadow::Flat,
    }
}

/// The filled accent button: the strongest call to action.
pub fn primary(status: Status) -> (style: ButtonStyle)
    ensures
        style == filled_button(Role::Accent, Role::AccentText, status),
{
    filled(Role::Accent, Role::AccentText, status)
}

/// The filled danger button, for irreversible actions.
pub fn danger(status: Status) -> (style: ButtonStyle)
    ensures
        style == filled_button(Role::Danger, Role::DangerText, status),
{
    filled(Role::Danger, Role::DangerText, status)
}

/// The tint behind an outlined or ghost button: none at rest or when
/// disabled, light when hovered, stronger when pressed.
pub open spec fn tint(status: Status) -> Paint {
    match status {
        Status::Hovered => Paint::Token(Role::Accent, Tweak::SetAlpha(8)),
        Status::Pressed => Paint::Token(Role::Accent, Tweak::SetAlpha(14)),
        _ => Paint::Transparent,
    }
}

fn tint_of(status: Status) -> (p: Paint)
    ensures
        p == tint(status),
{
    match status {
        Status::Hovered => Paint::Token(Role::Accent, Tweak::SetAlpha(8)),
        Status::Pressed => Paint::Token(Role::Accent, Tweak::SetAlpha(14)),
        _ => Paint::Transparent,
    }
}

/// The outlined accent button.
pub open spec fn spec_secondary(status: Status) -> ButtonStyle {
    ButtonStyle {
        background: Some(tint(status)),
        text: Paint::Token(Role::Accent, fill_tweak(status)),
        border: Border {
            color: Paint::Token(Role::Accent, fill_tweak(status)),
            width: 1,
            radius: Measure::Radius(RadiusRole::Md),
        },
        shadow: Shadow::Flat,
    }
}

/// The outlined accent button: accent border and label on a tint.
pub fn secondary(status: Status) -> (style: ButtonStyle)
    ensures
        style == spec_secondary(status),
{
    let t = fill_tweak_of(status);
    ButtonStyle {
        background: Some(tint_of(status)),
        text: Paint::Token(Role::Accent, t),
        border: Border { color: Paint::Token(Role::Accent, t), width: 1, radius: Measure::Radius(RadiusRole::Md) },
        shadow: Shadow::Flat,
    }
}

/// The label of a ghost button: plain, darker when pressed, faded when
/// disabled.
pub open spec fn ghost_label_tweak(status: Status) -> Tweak {
    match status {
        Status::Pressed => Tweak::Darken(6),
        Status::Disabled => Tweak::ScaleAlpha(45),
        _ => Tweak::Plain,
    }
}

/// The ghost button.
pub open spec fn spec_ghost(status: Status) -> ButtonStyle {
    ButtonStyle {
        background: Some(tint(status)),
        text: Paint::Token(Role::Accent, ghost_label_tweak(status)),
        border: Border { color: Paint::Transparent, width: 0, radius: Measure::Radius(RadiusRole::Md) },
        shadow: Shadow::Flat,
    }
}

/// The ghost button: no fill or border at rest, a tint on interaction.
pub fn ghost(status: Status) -> (style: ButtonStyle)
    ensures
        style == spec_ghost(status),
{
    let t = match status {
        Status::Pressed => Tweak::Darken(6),
        Status::Disabled => Tweak::ScaleAlpha(45),
        _ => Tweak::Plain,
    };
    ButtonStyle {
        background: Some(tint_of(status)),
        text: Paint::Token(Role::Accent, t),
        border: Border { color: Paint::Transparent, width: 0, radius: Measure::Radius(RadiusRole::Md) },
        shadow: Shadow::Flat,
    }
}

/// The four token button styles.
#[derive(Debug, Clone, Copy, PartialEq, Eq, Structural)]
pub enum ButtonKind {
    Primary,
    Secondary,
    /// The ghost button: no fill or border at rest.
    Borderless,
    Danger,
}

/// The style of a `kind` button in `status`.
pub open spec fn spec_button_style(kind: ButtonKind, status: Status) -> ButtonStyle {
    match kind {
        ButtonKind::Primary => filled_button(Role::Accent, Role::AccentText, status),
        ButtonKind::Secondary => spec_secondary(status),
        ButtonKind::Borderless => spec_ghost(status),
        ButtonKind::Danger => filled_button(Role::Danger, Role::DangerText, status),
    }
}

/// The style of a `kind` button in `status`.
pub fn button_style(kind: ButtonKind, status: Status) -> (style: ButtonStyle)
    ensures
        style == spec_button_style(kind, status),
{
    match kind {
        ButtonKind::Primary => primary(status),
        ButtonKind::Secondary => secondary(status),
        ButtonKind::Borderless => ghost(status),
        ButtonKind::Danger => danger(status),
    }
}

/// The outlined button's label and border are drawn in the colour the
/// filled accent button is painted with, in every state: visible at rest,
/// and never the faint tint behind the button.
pub proof fn outlined_label_is_the_accent(status: Status)
    ensures
        spec_secondary(status).text == spec_secondary(status).border.color,
        Some(spec_secondary(status).text) == filled_button(Role::Accent, Role::AccentText, status).background,
        spec_secondary(status).text != Paint::Transparent,
        Some(spec_secondary(status).text) != spec_secondary(status).background,
        spec_button_style(ButtonKind::Secondary, status) == spec_secondary(status),
{
}

/// Every token button paints a background in every state, and the
/// outlined and ghost buttons are transparent at rest.
pub proof fn buttons_always_paint_a_background(status: Status)
    ensures
        filled_button(Role::Accent, Role::AccentText, status).background is Some,
        filled_button(Role::Danger, Role::DangerText, status).background is Some,
        tint(Status::Active) == Paint::Transparent,
        filled_button(Role::Accent, Role::AccentText, Status::Disabled).text == Paint::Token(
            Role::AccentText,
            Tweak::ScaleAlpha(45),
        ),
        filled_button(Role::Accent, Role::AccentText, Status::Active).text == Paint::Token(
            Role::AccentText,
            Tweak::Plain,
        ),
{
}

// ---------------------------------------------------------------------
// Chips.
// ---------------------------------------------------------------------

/// The style of a selected chip.
pub open spec fn spec_chip_selected(status: Status) -> ButtonStyle {
    ButtonStyle {
        background: Some(Paint::Token(Role::Accent, match status {
            Status::Active => Tweak::Plain,
            Status::Hovered => Tweak::Darken(6),
            Status::Pressed => Tweak::Darken(12),
            Status::Disabled => Tweak::SetAlpha(50),
        })),
        text: Paint::Token(Role::AccentText, Tweak::Plain),
        border: Border {
            color: Paint::Token(Role::Accent, Tweak::Plain),
            width: 1,
            radius: Measure::Radius(RadiusRole::Pill),
        },
        shadow: Shadow::Flat,
    }
}

/// A selected chip: solid accent fill, darkened on interaction, with the
/// paired `accent_text` label in every state.
pub fn chip_style_selected(status: Status) -> (style: ButtonStyle)
    ensures
        style == spec_chip_selected(status),
{
    let t = match status {
        Status::Active => Tweak::Plain,
        Status::Hovered => Tweak::Darken(6),
        Status::Pressed => Tweak::Darken(12),
        Status::Disabled => Tweak::SetAlpha(50),
    };
    ButtonStyle {
        background: Some(Paint::Token(Role::Accent, t)),
        text: Paint::Token(Role::AccentText, Tweak::Plain),
        border: Border {
            color: Paint::Token(Role::Accent, Tweak::Plain),
            width: 1,
            radius: Measure::Radius(RadiusRole::Pill),
        },
        shadow: Shadow::Flat,
    }
}

/// The style of an unselected chip.
pub open spec fn spec_chip_unselected(status: Status) -> ButtonStyle {
    ButtonStyle {
        background: Some(Paint::Token(Role::Surface, match status {
            Status::Active => Tweak::Plain,
            Status::Hovered => Tweak::Darken(4),
            Status::Pressed => Tweak::Darken(8),
            Status::Disabled => Tweak::SetAlpha(50),
        })),
        text: Paint::Token(Role::TextSecondary, Tweak::Plain),
        border: Border {
            color: Paint::Token(Role::Border, Tweak::Plain),
            width: 1,
            radius: Measure::Radius(RadiusRole::Pill),
        },
        shadow: Shadow::Flat,
    }
}

/// An unselected chip: surface fill, darkened slightly on interaction,
/// secondary text, neutral border.
pub fn chip_style_unselected(status: Status) -> (style: ButtonStyle)
    ensures
        style == spec_chip_unselected(status),
{
    let t = match status {
        Status::Active => Tweak::Plain,
        Status::Hovered => Tweak::Darken(4),
        Status::Pressed => Tweak::Darken(8),
        Status::Disabled => Tweak::SetAlpha(50),
    };
    ButtonStyle {
        background: Some(Paint::Token(Role::Surface, t)),
        text: Paint::Token(Role::TextSecondary, Tweak::Plain),
        border: Border {
            color: Paint::Token(Role::Border, Tweak::Plain),
            width: 1,
            radius: Measure::Radius(RadiusRole::Pill),
        },
        shadow: Shadow::Flat,
    }
}

/// The style of a chip, selected or not.
pub fn chip_style(selected: bool, status: Status) -> (style: ButtonStyle)
    ensures
        style == (if selected { spec_chip_selected(status) } else { spec_chip_unselected(status) }),
{
    if selected {
        chip_style_selected(status)
    } else {
        chip_style_unselected(status)
    }
}

// ---------------------------------------------------------------------
// Cards.
// ---------------------------------------------------------------------

/// The standard card.
pub open spec fn spec_card_surface() -> BoxStyle {
    BoxStyle {
        background: Some(Paint::Token(Role::Surface, Tweak::Plain)),
        text: Some(Paint::Token(Role::TextPrimary, Tweak::Plain)),
        border: Border {
            color: Paint::Token(Role::Border, Tweak::Plain),
            width: 1,
            radius: Measure::Radius(RadiusRole::Lg),
        },
        shadow: Shadow::Flat,
    }
}

/// The standard card: surface fill, thin neutral border, large radius.
pub fn card_surface() -> (style: BoxStyle)
    ensures
        style == spec_card_surface(),
{
    BoxStyle {
        background: Some(Paint::Token(Role::Surface, Tweak::Plain)),
        text: Some(Paint::Token(Role::TextPrimary, Tweak::Plain)),
        border: Border {
            color: Paint::Token(Role::Border, Tweak::Plain),
            width: 1,
            radius: Measure::Radius(RadiusRole::Lg),
        },
        shadow: Shadow::Flat,
    }
}

/// The elevated card.
pub open spec fn spec_card_raised() -> BoxStyle {
    BoxStyle {
        background: Some(Paint::Token(Role::SurfaceRaised, Tweak::Plain)),
        text: Some(Paint::Token(Role::TextPrimary, Tweak::Plain)),
        border: Border {
            color: Paint::Token(Role::Border, Tweak::Plain),
            width: 1,
            radius: Measure::Radius(RadiusRole::Lg),
        },
        shadow: Shadow::Soft,
    }
}

/// The elevated card: raised surface fill and a soft drop shadow.
pub fn card_raised() -> (style: BoxStyle)
    ensures
        style == spec_card_raised(),
{
    BoxStyle {
        background: Some(Paint::Token(Role::SurfaceRaised, Tweak::Plain)),
        text: Some(Paint::Token(Role::TextPrimary, Tweak::Plain)),
        border: Border {
            color: Paint::Token(Role::Border, Tweak::Plain),
            width: 1,
            radius: Measure::Radius(RadiusRole::Lg),
        },
        shadow: Shadow::Soft,
    }
}

/// The selected card.
pub open spec fn spec_card_selected() -> BoxStyle {
    BoxStyle {
        background: Some(Paint::Token(Role::Surface, Tweak::Plain)),
        text: Some(Paint::Token(Role::TextPrimary, Tweak::Plain)),
        border: Border {
            color: Paint::Token(Role::Accent, Tweak::Plain),
            width: 2,
            radius: Measure::Radius(RadiusRole::Lg),
        },
        shadow: Shadow::Flat,
    }
}

/// The selected card: surface fill with a wider accent border.
pub fn card_selected() -> (style: BoxStyle)
    ensures
        style == spec_card_selected(),
{
    BoxStyle {
        background: Some(Paint::Token(Role::Surface, Tweak::Plain)),
        text: Some(Paint::Token(Role::TextPrimary, Tweak::Plain)),
        border: Border {
            color: Paint::Token(Role::Accent, Tweak::Plain),
            width: 2,
            radius: Measure::Radius(RadiusRole::Lg),
        },
        shadow: Shadow::Flat,
    }
}

/// The dialog card of the design path: the raised card, border-defined
/// rather than shadow-defined, so it reads in high-contrast presets too.
pub fn dialog_card_style() -> (style: BoxStyle)
    ensures
        style == (BoxStyle {
            background: Some(Paint::Token(Role::SurfaceRaised, Tweak::Plain)),
            text: Some(Paint::Token(Role::TextPrimary, Tweak::Plain)),
            border: Border {
                color: Paint::Token(Role::Border, Tweak::Plain),
                width: 1,
                radius: Measure::Radius(RadiusRole::Lg),
            },
            shadow: Shadow::Flat,
        }),
{
    let raised = card_raised();
    BoxStyle { shadow: Shadow::Flat, ..raised }
}

/// The padding between the design dialog card's edge and its content.
pub fn dialog_card_padding() -> (padding: Measure)
    ensures
        padding == Measure::Spacing(Space::Lg),
{
    Measure::Spacing(Space::Lg)
}

// ---------------------------------------------------------------------
// Tones: notices and progress bars.
// ---------------------------------------------------------------------

/// The palette role that carries `tone`.
pub open spec fn tone_role(tone: Tone) -> Role {
    match tone {
        Tone::Accent => Role::Accent,
        Tone::Success => Role::Success,
        Tone::Warning => Role::Warning,
        Tone::Danger => Role::Danger,
        Tone::Info => Role::Info,
        Tone::Neutral => Role::Border,
    }
}

/// The single colour that carries a notice's tone: its accent bar, its
/// outer border and its action label all use it.
pub fn notice_accent_color(tone: Tone) -> (color: Paint)
    ensures
        color == Paint::Token(tone_role(tone), Tweak::Plain),
{
    let role = match tone {
        Tone::Accent => Role::Accent,
        Tone::Success => Role::Success,
        Tone::Warning => Role::Warning,
        Tone::Danger => Role::Danger,
        Tone::Info => Role::Info,
        Tone::Neutral => Role::Border,
    };
    Paint::Token(role, Tweak::Plain)
}

/// The notice's left accent bar: only its fill depends on the colour.
pub fn notice_accent_bar_style(color: Paint) -> (style: BoxStyle)
    ensures
        style == (BoxStyle {
            background: Some(color),
            text: None,
            border: Border { color: Paint::Transparent, width: 0, radius: Measure::Px(0) },
            shadow: Shadow::Flat,
        }),
{
    BoxStyle {
        background: Some(color),
        text: None,
        border: Border { color: Paint::Transparent, width: 0, radius: Measure::Px(0) },
        shadow: Shadow::Flat,
    }
}

/// The notice's outer container: a one-pixel border in the tone's colour
/// around the surface fill.
pub fn notice_outer_style(surface: Paint, border_color: Paint, radius: Measure) -> (style: BoxStyle)
    ensures
        style == (BoxStyle {
            background: Some(surface),
            text: None,
            border: Border { color: border_color, width: 1, radius },
            shadow: Shadow::Flat,
        }),
{
    BoxStyle {
        background: Some(surface),
        text: None,
        border: Border { color: border_color, width: 1, radius },
        shadow: Shadow::Flat,
    }
}

/// A progress bar in `tone`: the tone's role fills the bar over a
/// surface-coloured track.
pub fn toned(tone: Tone) -> (style: ProgressStyle)
    ensures
        style == (ProgressStyle {
            track: Paint::Token(Role::Surface, Tweak::Plain),
            bar: Paint::Token(tone_role(tone), Tweak::Plain),
            border: Border { color: Paint::Transparent, width: 0, radius: Measure::Radius(RadiusRole::Sm) },
        }),
{
    ProgressStyle {
        track: Paint::Token(Role::Surface, Tweak::Plain),
        bar: notice_accent_color(tone),
        border: Border { color: Paint::Transparent, width: 0, radius: Measure::Radius(RadiusRole::Sm) },
    }
}

// ---------------------------------------------------------------------
// Theme-driven chrome.
// ---------------------------------------------------------------------

/// The style of a menu entry in `status`.
pub open spec fn spec_menu_button_style(status: Status) -> ButtonStyle {
    ButtonStyle {
        background: None,
        text: Paint::Theme(Tier::BackgroundBaseText),
        border: no_border(),
        shadow: Shadow::Flat,
    }
}

/// A menu entry: readable page text in every state, on the page itself.
pub fn menu_button_style(status: Status) -> (style: ButtonStyle)
    ensures
        style == spec_menu_button_style(status),
{
    ButtonStyle {
        background: None,
        text: Paint::Theme(Tier::BackgroundBaseText),
        border: Border { color: Paint::Transparent, width: 0, radius: Measure::Px(0) },
        shadow: Shadow::Flat,
    }
}

/// The header and footer chrome with a given corner radius: page text,
/// no fill, a one-pixel border in the page text colour.
pub fn chrome_container_style_with_radius(radius: Measure) -> (style: BoxStyle)
    ensures
        style == (BoxStyle {
            background: None,
            text: Some(Paint::Theme(Tier::BackgroundBaseText)),
            border: Border { color: Paint::Theme(Tier::BackgroundBaseText), width: 1, radius },
            shadow: Shadow::Flat,
        }),
{
    BoxStyle {
        background: None,
        text: Some(Paint::Theme(Tier::BackgroundBaseText)),
        border: Border { color: Paint::Theme(Tier::BackgroundBaseText), width: 1, radius },
        shadow: Shadow::Flat,
    }
}

/// The unstyled header and footer chrome: square corners.
pub fn chrome_container_style() -> (style: BoxStyle)
    ensures
        style == (BoxStyle {
            background: None,
            text: Some(Paint::Theme(Tier::BackgroundBaseText)),
            border: Border { color: Paint::Theme(Tier::BackgroundBaseText), width: 1, radius: Measure::Px(0) },
            shadow: Shadow::Flat,
        }),
{
    chrome_container_style_with_radius(Measure::Px(0))
}

/// The highlight behind the active sidebar item.
pub fn sidebar_active_color() -> (color: Paint)
    ensures
        color == Paint::Theme(Tier::PrimaryStrong),
{
    Paint::Theme(Tier::PrimaryStrong)
}

/// The style of a sidebar button.
pub open spec fn spec_sidebar_button_style(status: Status, is_active: bool, radius: Measure) -> ButtonStyle {
    ButtonStyle {
        background: if is_active {
            Some(Paint::Theme(Tier::PrimaryStrong))
        } else if status is Hovered {
            Some(Paint::Theme(Tier::BackgroundWeak))
        } else {
            None
        },
        text: if is_active {
            Paint::Theme(Tier::PrimaryStrongText)
        } else {
            Paint::Theme(Tier::BackgroundBaseText)
        },
        border: Border { color: Paint::Transparent, width: 0, radius },
        shadow: Shadow::Flat,
    }
}

/// A sidebar icon button: the active item is highlighted in every state;
/// an inactive one only gets a weak fill while hovered.
pub fn sidebar_button_style(status: Status, is_active: bool, radius: Measure) -> (style: ButtonStyle)
    ensures
        style == spec_sidebar_button_style(status, is_active, radius),
{
    let background = if is_active {
        Some(sidebar_active_color())
    } else {
        match status {
            Status::Hovered => Some(Paint::Theme(Tier::BackgroundWeak)),
            _ => None,
        }
    };
    let text = if is_active {
        Paint::Theme(Tier::PrimaryStrongText)
    } else {
        Paint::Theme(Tier::BackgroundBaseText)
    };
    ButtonStyle { background, text, border: Border { color: Paint::Transparent, width: 0, radius }, shadow: Shadow::Flat }
}

/// The unstyled body behind sidebar tooltips: page fill, page text, and
/// a one-pixel page-text border shaped like the rail's buttons.
pub fn unstyled_tooltip_body_style() -> (style: BoxStyle)
    ensures
        style == (BoxStyle {
            background: Some(Paint::Theme(Tier::BackgroundBase)),
            text: Some(Paint::Theme(Tier::BackgroundBaseText)),
            border: Border { color: Paint::Theme(Tier::BackgroundBaseText), width: 1, radius: Measure::Px(6) },
            shadow: Shadow::Flat,
        }),
{
    BoxStyle {
        background: Some(Paint::Theme(Tier::BackgroundBase)),
        text: Some(Paint::Theme(Tier::BackgroundBaseText)),
        border: Border { color: Paint::Theme(Tier::BackgroundBaseText), width: 1, radius: Measure::Px(6) },
        shadow: Shadow::Flat,
    }
}

/// The tab bar's own container: page text, no fill, no border.
pub fn tab_bar_container_style() -> (style: BoxStyle)
    ensures
        style == (BoxStyle {
            background: None,
            text: Some(Paint::Theme(Tier::BackgroundBaseText)),
            border: no_border(),
            shadow: Shadow::Flat,
        }),
{
    BoxStyle {
        background: None,
        text: Some(Paint::Theme(Tier::BackgroundBaseText)),
        border: Border { color: Paint::Transparent, width: 0, radius: Measure::Px(0) },
        shadow: Shadow::Flat,
    }
}

/// The tab bar's bottom rule: a solid, square line in the page text
/// colour.
pub fn tab_bar_rule_style() -> (style: BoxStyle)
    ensures
        style == (BoxStyle {
            background: Some(Paint::Theme(Tier::BackgroundBaseText)),
            text: None,
            border: no_border(),
            shadow: Shadow::Flat,
        }),
{
    BoxStyle {
        background: Some(Paint::Theme(Tier::BackgroundBaseText)),
        text: None,
        border: Border { color: Paint::Transparent, width: 0, radius: Measure::Px(0) },
        shadow: Shadow::Flat,
    }
}

/// The active tab's underline: a solid, square line in the strong
/// primary colour.
pub fn tab_indicator_style() -> (style: BoxStyle)
    ensures
        style == (BoxStyle {
            background: Some(Paint::Theme(Tier::PrimaryStrong)),
            text: None,
            border: no_border(),
            shadow: Shadow::Flat,
        }),
{
    BoxStyle {
        background: Some(Paint::Theme(Tier::PrimaryStrong)),
        text: None,
        border: Border { color: Paint::Transparent, width: 0, radius: Measure::Px(0) },
        shadow: Shadow::Flat,
    }
}

/// The style of a tab button.
pub open spec fn spec_tab_button_style(status: Status, is_active: bool) -> ButtonStyle {
    ButtonStyle {
        background: if !is_active && status is Hovered {
            Some(Paint::Theme(Tier::BackgroundWeak))
        } else {
            None
        },
        text: if is_active || status is Hovered {
            Paint::Theme(Tier::BackgroundBaseText)
        } else {
            Paint::Mix { from: Tier::BackgroundBaseText, toward: Tier::BackgroundBase, percent: 30 }
        },
        border: no_border(),
        shadow: Shadow::Flat,
    }
}

/// A tab button: the active tab reads in page text in every state; an
/// inactive tab is muted toward the page and gets a weak fill on hover.
/// Square corners and no shadow: the underline is its own element.
pub fn tab_button_style(status: Status, is_active: bool) -> (style: ButtonStyle)
    ensures
        style == spec_tab_button_style(status, is_active),
{
    let (background, text) = if is_active {
        (None, Paint::Theme(Tier::BackgroundBaseText))
    } else {
        match status {
            Status::Hovered => (Some(Paint::Theme(Tier::BackgroundWeak)), Paint::Theme(Tier::BackgroundBaseText)),
            _ => (None, Paint::Mix { from: Tier::BackgroundBaseText, toward: Tier::BackgroundBase, percent: 30 }),
        }
    };
    ButtonStyle {
        background,
        text,
        border: Border { color: Paint::Transparent, width: 0, radius: Measure::Px(0) },
        shadow: Shadow::Flat,
    }
}

/// A pressable crumb: a weak fill while hovered or pressed signals that
/// it can be pressed. The label is page text in every state: no shade of
/// the primary family is readable against an arbitrary page background,
/// and page text is readable on the page and on its weak fill alike.
pub fn crumb_button_style(status: Status, radius: Measure) -> (style: ButtonStyle)
    ensures
        style == (ButtonStyle {
            background: if status is Hovered || status is Pressed {
                Some(Paint::Theme(Tier::BackgroundWeak))
            } else {
                None
            },
            text: Paint::Theme(Tier::BackgroundBaseText),
            border: Border { color: Paint::Transparent, width: 0, radius },
            shadow: Shadow::Flat,
        }),
{
    let background = match status {
        Status::Hovered | Status::Pressed => Some(Paint::Theme(Tier::BackgroundWeak)),
        _ => None,
    };
    ButtonStyle {
        background,
        text: Paint::Theme(Tier::BackgroundBaseText),
        border: Border { color: Paint::Transparent, width: 0, radius },
        shadow: Shadow::Flat,
    }
}

/// The breadcrumb separator: halfway between page text and page fill.
pub fn separator_color() -> (color: Paint)
    ensures
        color == (Paint::Mix { from: Tier::BackgroundBaseText, toward: Tier::BackgroundBase, percent: 50 }),
{
    Paint::Mix { from: Tier::BackgroundBaseText, toward: Tier::BackgroundBase, percent: 50 }
}

// ---------------------------------------------------------------------
// Toasts, sheets and the modal dim.
// ---------------------------------------------------------------------

/// The `(fill, text)` pair of a toast intent, shared by the toast body
/// and its dismiss mark.
pub open spec fn spec_intent_colors(intent: ToastIntent) -> (Paint, Paint) {
    match intent {
        ToastIntent::Debug => (Paint::Theme(Tier::BackgroundStrong), Paint::Theme(Tier::BackgroundStrongText)),
        ToastIntent::Info => (Paint::Theme(Tier::PrimaryStrong), Paint::Black),
        ToastIntent::Success => (Paint::Theme(Tier::SuccessBase), Paint::Theme(Tier::SuccessBaseText)),
        ToastIntent::Warning => (Paint::WarningAmber, Paint::Black),
        ToastIntent::Error => (Paint::Theme(Tier::DangerBase), Paint::Theme(Tier::DangerBaseText)),
    }
}

/// The fill and text colour of a toast with `intent`.
pub fn intent_colors(intent: ToastIntent) -> (colors: (Paint, Paint))
    ensures
        colors == spec_intent_colors(intent),
{
    match intent {
        ToastIntent::Debug => (Paint::Theme(Tier::BackgroundStrong), Paint::Theme(Tier::BackgroundStrongText)),
        ToastIntent::Info => (Paint::Theme(Tier::PrimaryStrong), Paint::Black),
        ToastIntent::Success => (Paint::Theme(Tier::SuccessBase), Paint::Theme(Tier::SuccessBaseText)),
        ToastIntent::Warning => (Paint::WarningAmber, Paint::Black),
        ToastIntent::Error => (Paint::Theme(Tier::DangerBase), Paint::Theme(Tier::DangerBaseText)),
    }
}

/// The style of a toast's surface.
pub open spec fn spec_toast_style(intent: ToastIntent) -> BoxStyle {
    BoxStyle {
        background: Some(spec_intent_colors(intent).0),
        text: Some(spec_intent_colors(intent).1),
        border: Border { color: Paint::Transparent, width: 0, radius: Measure::Px(8) },
        shadow: Shadow::Flat,
    }
}

/// A toast's surface: the intent's fill and text, rounded corners.
pub fn toast_style(intent: ToastIntent) -> (style: BoxStyle)
    ensures
        style == spec_toast_style(intent),
{
    let (fill, text) = intent_colors(intent);
    BoxStyle {
        background: Some(fill),
        text: Some(text),
        border: Border { color: Paint::Transparent, width: 0, radius: Measure::Px(8) },
        shadow: Shadow::Flat,
    }
}

/// The style of a toast's dismiss mark.
pub open spec fn spec_close_button_style(intent: ToastIntent, status: Status) -> ButtonStyle {
    ButtonStyle {
        background: None,
        text: spec_intent_colors(intent).1,
        border: no_border(),
        shadow: Shadow::Flat,
    }
}

/// A toast's dismiss mark: the same text colour as the toast body, fully
/// opaque in every state.
pub fn close_button_style(intent: ToastIntent, status: Status) -> (style: ButtonStyle)
    ensures
        style == spec_close_button_style(intent, status),
{
    let (_, text) = intent_colors(intent);
    ButtonStyle {
        background: None,
        text,
        border: Border { color: Paint::Transparent, width: 0, radius: Measure::Px(0) },
        shadow: Shadow::Flat,
    }
}

/// Every intent is painted with a fill of its own, so no two intents
/// look alike: the danger fill is the error toast's alone, the success
/// fill the success toast's, the strong primary the info toast's, the
/// strong background the debug toast's and amber the warning toast's.
/// Info and warning toasts alone read in black; every other toast reads
/// in the text tier that pairs with its fill.
pub proof fn intents_have_their_own_colours(a: ToastIntent, b: ToastIntent)
    ensures
        a != b ==> spec_intent_colors(a).0 != spec_intent_colors(b).0,
        (spec_intent_colors(a).0 == Paint::Theme(Tier::DangerBase)) <==> a == ToastIntent::Error,
        (spec_intent_colors(a).0 == Paint::Theme(Tier::SuccessBase)) <==> a == ToastIntent::Success,
        (spec_intent_colors(a).0 == Paint::Theme(Tier::PrimaryStrong)) <==> a == ToastIntent::Info,
        (spec_intent_colors(a).0 == Paint::Theme(Tier::BackgroundStrong)) <==> a == ToastIntent::Debug,
        (spec_intent_colors(a).0 == Paint::WarningAmber) <==> a == ToastIntent::Warning,
        (spec_intent_colors(a).1 == Paint::Black) <==> (a == ToastIntent::Info || a == ToastIntent::Warning),
        spec_intent_colors(a).1 == Paint::Black || spec_intent_colors(a).1 == Paint::Theme(
            text_tier_of(spec_intent_colors(a).0),
        ),
{
}

/// The text tier that pairs with a theme fill; page text for any other
/// paint.
pub open spec fn text_tier_of(fill: Paint) -> Tier {
    match fill {
        Paint::Theme(Tier::BackgroundStrong) => Tier::BackgroundStrongText,
        Paint::Theme(Tier::PrimaryStrong) => Tier::PrimaryStrongText,
        Paint::Theme(Tier::SuccessBase) => Tier::SuccessBaseText,
        Paint::Theme(Tier::DangerBase) => Tier::DangerBaseText,
        _ => Tier::BackgroundBaseText,
    }
}

/// A toast's dismiss mark always matches the body text of the same toast,
/// whatever the intent and the mark's interaction state, and never fades.
pub proof fn toast_mark_matches_body(intent: ToastIntent, status: Status)
    ensures
        spec_toast_style(intent).text == Some(spec_close_button_style(intent, status).text),
        spec_close_button_style(intent, status) == spec_close_button_style(intent, Status::Active),
{
}

/// A menu entry looks the same in every state, on the page background.
pub proof fn menu_entry_is_stateless(status: Status)
    ensures
        spec_menu_button_style(status) == spec_menu_button_style(Status::Active),
        spec_menu_button_style(status).background is None,
{
}

/// The active tab and the active sidebar item look the same in every
/// interaction state; no tab button draws a shadow or rounds its corners.
pub proof fn active_items_ignore_interaction(status: Status, radius: Measure)
    ensures
        spec_tab_button_style(status, true) == spec_tab_button_style(Status::Active, true),
        spec_sidebar_button_style(status, true, radius) == spec_sidebar_button_style(
            Status::Active,
            true,
            radius,
        ),
        spec_sidebar_button_style(status, true, radius).background == Some(Paint::Theme(Tier::PrimaryStrong)),
        spec_tab_button_style(status, false).shadow == Shadow::Flat,
        spec_tab_button_style(status, true).shadow == Shadow::Flat,
        spec_tab_button_style(status, false).border.radius == Measure::Px(0),
        spec_tab_button_style(status, true).border.radius == Measure::Px(0),
{
}

/// Cards and chips always paint a background; a selected chip always
/// labels in `accent_text`; the selected card's border is wider than the
/// standard card's; only the raised card casts a shadow.
pub proof fn card_and_chip_guarantees(status: Status)
    ensures
        spec_card_surface().background is Some,
        spec_card_raised().background is Some,
        spec_card_selected().background is Some,
        spec_card_selected().border.width > spec_card_surface().border.width,
        spec_card_raised().shadow == Shadow::Soft,
        spec_card_surface().shadow == Shadow::Flat,
        spec_chip_selected(status).text == Paint::Token(Role::AccentText, Tweak::Plain),
        spec_chip_selected(status).background is Some,
        spec_chip_unselected(status).background is Some,
{
}

/// A sheet's panel: page fill and text, a one-pixel weak border, and a
/// 12-pixel radius on the corners `rounded_corners` selects.
pub fn sheet_surface_style() -> (style: BoxStyle)
    ensures
        style == (BoxStyle {
            background: Some(Paint::Theme(Tier::BackgroundBase)),
            text: Some(Paint::Theme(Tier::BackgroundBaseText)),
            border: Border { color: Paint::Theme(Tier::BackgroundWeak), width: 1, radius: Measure::Px(12) },
            shadow: Shadow::Flat,
        }),
{
    BoxStyle {
        background: Some(Paint::Theme(Tier::BackgroundBase)),
        text: Some(Paint::Theme(Tier::BackgroundBaseText)),
        border: Border { color: Paint::Theme(Tier::BackgroundWeak), width: 1, radius: Measure::Px(12) },
        shadow: Shadow::Flat,
    }
}

/// The base colour of the design path's modal dim: the pole opposite the
/// page background, so the dim never vanishes into the page.
pub fn dim_pole(background_is_dark: bool) -> (pole: Paint)
    ensures
        pole == (if background_is_dark { Paint::White } else { Paint::Black }),
{
    if background_is_dark {
        Paint::White
    } else {
        Paint::Black
    }
}

/// Opacity of the design path's modal dim, in hundredths.
pub const DIM_ALPHA_PERCENT: u8 = 44;

/// Opacity of the plain path's black modal dim, in hundredths.
pub const UNSTYLED_DIM_ALPHA_PERCENT: u8 = 40;

} // verus!
