//! Notices: toned status banners with an optional title, action and
//! dismiss control. The application owns every bit of state; a notice
//! only decides what its banner holds and how each part is painted.
//!
//! One colour carries the tone: the left accent bar, the outer border
//! and the action's label all use it. Both controls are ghost buttons,
//! low in emphasis inside the banner.

use vstd::prelude::*;
use crate::paint::{Border, BoxStyle, Measure, Paint, RadiusRole, Role, Shadow, Tone, Tweak};
use crate::styles::{ButtonKind, notice_accent_bar_style, notice_accent_color, notice_outer_style, tone_role};

verus! {

/// The action button of a notice.
pub struct NoticeAction<M> {
    pub label: String,
    pub on_press: M,
}

/// A notice under construction.
pub struct Notice<M> {
    pub tone: Tone,
    pub title: Option<String>,
    pub body: String,
    pub action: Option<NoticeAction<M>>,
    pub dismiss: Option<M>,
}

/// A line of a notice's text column.
pub enum NoticeLine {
    /// The title, in label type, above the body.
    Title(String),
    /// The body, in body type.
    Body(String),
}

/// A control at the end of a notice's row, drawn as a `kind` button.
pub enum NoticeControl<M> {
    /// The action, labelled in `color`.
    Action { label: String, color: Paint, kind: ButtonKind, on_press: M },
    /// The close glyph, drawn in `color`.
    Dismiss { color: Paint, kind: ButtonKind, on_press: M },
}

/// Width of a notice's accent bar, in logical pixels.
pub const ACCENT_BAR_WIDTH: u16 = 4;

/// What a notice's banner holds: the accent bar, then the text column,
/// then the controls (the controls cell is left out when there are
/// none), all inside the outer container.
pub struct NoticeView<M> {
    /// The colour that carries the tone.
    pub accent: Paint,
    pub accent_bar: BoxStyle,
    /// Width of the accent bar, in logical pixels; it spans the banner's
    /// full height.
    pub accent_bar_width: u16,
    pub outer: BoxStyle,
    /// The colour of the title, the body and the close glyph.
    pub text_color: Paint,
    pub lines: Vec<NoticeLine>,
    pub controls: Vec<NoticeControl<M>>,
}

impl<M> Notice<M> {
    /// A notice in `tone` showing `body`, with no title, action or
    /// dismiss control.
    pub fn new(tone: Tone, body: &str) -> (notice: Self)
        ensures
            notice.tone == tone,
            notice.title is None,
            notice.body@ == body@,
            notice.action is None,
            notice.dismiss is None,
    {
        Notice { tone, title: None, body: String::from_str(body), action: None, dismiss: None }
    }

    /// The same notice with a title line above the body.
    pub fn title(self, title: &str) -> (notice: Self)
        ensures
            notice.title matches Some(t) && t@ == title@,
            notice.tone == self.tone,
            notice.body == self.body,
            notice.action == self.action,
            notice.dismiss == self.dismiss,
    {
        Notice { title: Some(String::from_str(title)), ..self }
    }

    /// The same notice with an action button.
    pub fn action(self, label: &str, on_press: M) -> (notice: Self)
        ensures
            notice.action matches Some(a) && a.label@ == label@ && a.on_press == on_press,
            notice.tone == self.tone,
            notice.title == self.title,
            notice.body == self.body,
            notice.dismiss == self.dismiss,
    {
        Notice { action: Some(NoticeAction { label: String::from_str(label), on_press }), ..self }
    }

    /// The same notice with a dismiss (close glyph) button.
    pub fn dismiss(self, on_press: M) -> (notice: Self)
        ensures
            notice == (Notice { dismiss: Some(on_press), ..self }),
    {
        Notice { dismiss: Some(on_press), ..self }
    }

    /// Lays the notice out: a four-pixel accent bar, the tone's colour on
    /// that bar, the outer border and the action label; primary text for
    /// the lines and the close glyph; both controls ghost buttons; the
    /// outer container on the surface fill with the medium radius.
    pub fn render(self) -> (view: NoticeView<M>)
        ensures
            view.accent == Paint::Token(tone_role(self.tone), Tweak::Plain),
            view.text_color == Paint::Token(Role::TextPrimary, Tweak::Plain),
            view.accent_bar == (BoxStyle {
                background: Some(view.accent),
                text: None,
                border: Border { color: Paint::Transparent, width: 0, radius: Measure::Px(0) },
                shadow: Shadow::Flat,
            }),
            view.accent_bar_width == 4,
            view.outer == (BoxStyle {
                background: Some(Paint::Token(Role::Surface, Tweak::Plain)),
                text: None,
                border: Border { color: view.accent, width: 1, radius: Measure::Radius(RadiusRole::Md) },
                shadow: Shadow::Flat,
            }),
            view.lines@ == spec_lines(self.title, self.body),
            view.controls@ == spec_controls(self.action, self.dismiss, view.accent, view.text_color),
    {
        let accent = notice_accent_color(self.tone);
        let text_color = Paint::Token(Role::TextPrimary, Tweak::Plain);
        let Notice { tone, title, body, action, dismiss } = self;
        let ghost lines_spec = spec_lines(title, body);
        let ghost controls_spec = spec_controls(action, dismiss, accent, text_color);
        let mut lines: Vec<NoticeLine> = Vec::new();
        if let Some(t) = title {
            lines.push(NoticeLine::Title(t));
        }
        lines.push(NoticeLine::Body(body));
        assert(lines@ =~= lines_spec);
        let mut controls: Vec<NoticeControl<M>> = Vec::new();
        if let Some(a) = action {
            let NoticeAction { label, on_press } = a;
            controls.push(NoticeControl::Action { label, color: accent, kind: ButtonKind::Borderless, on_press });
        }
        if let Some(m) = dismiss {
            controls.push(NoticeControl::Dismiss { color: text_color, kind: ButtonKind::Borderless, on_press: m });
        }
        assert(controls@ =~= controls_spec);
        NoticeView {
            accent,
            accent_bar: notice_accent_bar_style(accent),
            accent_bar_width: ACCENT_BAR_WIDTH,
            outer: notice_outer_style(
                Paint::Token(Role::Surface, Tweak::Plain),
                accent,
                Measure::Radius(RadiusRole::Md),
            ),
            text_color,
            lines,
            controls,
        }
    }
}

/// The text column: the title first when there is one, then the body.
pub open spec fn spec_lines(title: Option<String>, body: String) -> Seq<NoticeLine> {
    match title {
        Some(t) => seq![NoticeLine::Title(t), NoticeLine::Body(body)],
        None => seq![NoticeLine::Body(body)],
    }
}

/// The controls: the action first when there is one, then the dismiss
/// control when there is one; both are ghost buttons.
pub open spec fn spec_controls<M>(
    action: Option<NoticeAction<M>>,
    dismiss: Option<M>,
    accent: Paint,
    text_color: Paint,
) -> Seq<NoticeControl<M>> {
    (match action {
        Some(a) => seq![NoticeControl::Action { label: a.label, color: accent, kind: ButtonKind::Borderless, on_press: a.on_press }],
        None => Seq::empty(),
    }) + (match dismiss {
        Some(m) => seq![NoticeControl::Dismiss { color: text_color, kind: ButtonKind::Borderless, on_press: m }],
        None => Seq::empty(),
    })
}

} // verus!
