//! The vocabulary styles are written in: which colour role, tier or fixed
//! colour a surface is painted with, how it is tweaked, and which token
//! sizes its radii and gaps come from.
//!
//! Styles name colours and sizes symbolically; the renderer resolves the
//! names against the active token bundle or theme palette when it draws.

use vstd::prelude::*;

verus! {

/// A colour role of the design token palette.
#[derive(Debug, Clone, Copy, PartialEq, Eq, Structural)]
pub enum Role {
    Background,
    Surface,
    SurfaceRaised,
    Border,
    TextPrimary,
    TextSecondary,
    Accent,
    AccentText,
    Success,
    Warning,
    Danger,
    DangerText,
    Info,
}

/// A tier of the theme's extended palette, used by the unstyled widgets.
#[derive(Debug, Clone, Copy, PartialEq, Eq, Structural)]
pub enum Tier {
    BackgroundBase,
    BackgroundBaseText,
    BackgroundWeak,
    BackgroundStrong,
    BackgroundStrongText,
    PrimaryBase,
    PrimaryStrong,
    PrimaryStrongText,
    PrimaryWeak,
    SuccessBase,
    SuccessBaseText,
    DangerBase,
    DangerBaseText,
}

/// A change applied to a colour, in hundredths.
#[derive(Debug, Clone, Copy, PartialEq, Eq, Structural)]
pub enum Tweak {
    /// The colour as it is.
    Plain,
    /// Each channel raised by this many hundredths, capped at full.
    Lighten(u8),
    /// Each channel lowered by this many hundredths, floored at zero.
    Darken(u8),
    /// Opacity multiplied by this many hundredths.
    ScaleAlpha(u8),
    /// Opacity replaced by this many hundredths.
    SetAlpha(u8),
}

/// A colour, by name.
#[derive(Debug, Clone, Copy, PartialEq, Eq, Structural)]
pub enum Paint {
    /// A token palette role, possibly tweaked.
    Token(Role, Tweak),
    /// A theme palette tier.
    Theme(Tier),
    /// `from` blended toward `toward` by `percent` hundredths.
    Mix { from: Tier, toward: Tier, percent: u8 },
    Black,
    White,
    Transparent,
    /// The fixed amber used for warning toasts, readable on light and
    /// dark themes alike.
    WarningAmber,
}

/// A step of the token spacing scale.
#[derive(Debug, Clone, Copy, PartialEq, Eq, Structural)]
pub enum Space {
    Xs,
    Sm,
    Md,
    Lg,
    Xl,
    Xxl,
}

/// A step of the token radius scale.
#[derive(Debug, Clone, Copy, PartialEq, Eq, Structural)]
pub enum RadiusRole {
    Sm,
    Md,
    Lg,
    Pill,
}

/// A length: a literal number of logical pixels or a token step.
#[derive(Debug, Clone, Copy, PartialEq, Eq, Structural)]
pub enum Measure {
    Px(u16),
    Spacing(Space),
    Radius(RadiusRole),
}

/// A border: colour, width in logical pixels, corner radius.
#[derive(Debug, Clone, Copy, PartialEq, Eq, Structural)]
pub struct Border {
    pub color: Paint,
    pub width: u16,
    pub radius: Measure,
}

/// The default border: transparent, zero width, square corners.
pub open spec fn no_border() -> Border {
    Border { color: Paint::Transparent, width: 0, radius: Measure::Px(0) }
}

/// A drop shadow.
#[derive(Debug, Clone, Copy, PartialEq, Eq, Structural)]
pub enum Shadow {
    /// No shadow.
    Flat,
    /// Black at 12 % opacity, two pixels down, eight pixels of blur.
    Soft,
}

/// The style of a container.
#[derive(Debug, Clone, Copy, PartialEq, Eq, Structural)]
pub struct BoxStyle {
    pub background: Option<Paint>,
    pub text: Option<Paint>,
    pub border: Border,
    pub shadow: Shadow,
}

/// The style of a button in one interaction state.
#[derive(Debug, Clone, Copy, PartialEq, Eq, Structural)]
pub struct ButtonStyle {
    pub background: Option<Paint>,
    pub text: Paint,
    pub border: Border,
    pub shadow: Shadow,
}

/// The style of a progress bar.
#[derive(Debug, Clone, Copy, PartialEq, Eq, Structural)]
pub struct ProgressStyle {
    pub track: Paint,
    pub bar: Paint,
    pub border: Border,
}

/// The interaction state of a button.
#[derive(Debug, Clone, Copy, PartialEq, Eq, Structural)]
pub enum Status {
    Active,
    Hovered,
    Pressed,
    Disabled,
}

/// The semantic tone of a notice, chip or progress bar.
#[derive(Debug, Clone, Copy, PartialEq, Eq, Structural)]
pub enum Tone {
    Neutral,
    Accent,
    Success,
    Warning,
    Danger,
    Info,
}

} // verus!
