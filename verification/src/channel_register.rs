//! The channel register of the toned surfaces: a surface's tone may
//! change its colours, and nothing else — not its layout, border width,
//! radius or shadow. Every colour-bearing field is normalised to one
//! placeholder before styles are compared, so a colour change in any
//! field, varying today or not, can never pass for a change of shape.

use vstd::prelude::*;
use crate::paint::{Border, BoxStyle, Measure, Paint, ProgressStyle, RadiusRole, Role, Tone, Tweak};
use crate::reference_page::strings_view;
use crate::styles::{notice_accent_bar_style, notice_accent_color, notice_outer_style, toned, tone_role};

verus! {

/// The colour every colour-bearing field is replaced with before two
/// styles are compared.
pub open spec fn placeholder() -> Paint {
    Paint::White
}

/// `style` with every colour-bearing field (fill, text, border colour)
/// replaced by the placeholder.
pub open spec fn spec_canonical_box(style: BoxStyle) -> BoxStyle {
    BoxStyle {
        background: match style.background {
            Some(_) => Some(placeholder()),
            None => None,
        },
        text: match style.text {
            Some(_) => Some(placeholder()),
            None => None,
        },
        border: Border { color: placeholder(), ..style.border },
        ..style
    }
}

/// `style` with its track, bar and border colour replaced by the
/// placeholder.
pub open spec fn spec_canonical_progress(style: ProgressStyle) -> ProgressStyle {
    ProgressStyle {
        track: placeholder(),
        bar: placeholder(),
        border: Border { color: placeholder(), ..style.border },
    }
}

/// Normalises every colour-bearing field of a container style.
pub fn canonicalize_container(style: BoxStyle) -> (canonical: BoxStyle)
    ensures
        canonical == spec_canonical_box(style),
{
    BoxStyle {
        background: match style.background {
            Some(_) => Some(Paint::White),
            None => None,
        },
        text: match style.text {
            Some(_) => Some(Paint::White),
            None => None,
        },
        border: Border { color: Paint::White, ..style.border },
        ..style
    }
}

/// Normalises every colour-bearing field of a progress bar style.
pub fn canonicalize_progress(style: ProgressStyle) -> (canonical: ProgressStyle)
    ensures
        canonical == spec_canonical_progress(style),
{
    ProgressStyle {
        track: Paint::White,
        bar: Paint::White,
        border: Border { color: Paint::White, ..style.border },
    }
}

/// A toned surface under the register.
#[derive(Debug, Clone, Copy, PartialEq, Eq, Structural)]
pub enum Surface {
    /// The notice's left accent bar.
    NoticeAccentBar,
    /// The notice's outer container.
    NoticeOuter,
    /// The progress bar.
    ProgressBar,
}

/// A surface's style, reduced to its shape.
#[derive(Debug, Clone, Copy, PartialEq, Eq, Structural)]
pub enum Shape {
    Container(BoxStyle),
    Progress(ProgressStyle),
}

/// The shape `surface` has in `tone`: its style with colour normalised
/// away.
pub open spec fn spec_shape(surface: Surface, tone: Tone) -> Shape {
    let accent = Paint::Token(tone_role(tone), Tweak::Plain);
    match surface {
        Surface::NoticeAccentBar => Shape::Container(spec_canonical_box(BoxStyle {
            background: Some(accent),
            text: None,
            border: Border { color: Paint::Transparent, width: 0, radius: Measure::Px(0) },
            shadow: crate::paint::Shadow::Flat,
        })),
        Surface::NoticeOuter => Shape::Container(spec_canonical_box(BoxStyle {
            background: Some(Paint::Token(Role::Surface, Tweak::Plain)),
            text: None,
            border: Border { color: accent, width: 1, radius: Measure::Radius(RadiusRole::Md) },
            shadow: crate::paint::Shadow::Flat,
        })),
        Surface::ProgressBar => Shape::Progress(spec_canonical_progress(ProgressStyle {
            track: Paint::Token(Role::Surface, Tweak::Plain),
            bar: accent,
            border: Border { color: Paint::Transparent, width: 0, radius: Measure::Radius(RadiusRole::Sm) },
        })),
    }
}

/// Computes the shape `surface` has in `tone`.
pub fn shape_of(surface: Surface, tone: Tone) -> (shape: Shape)
    ensures
        shape == spec_shape(surface, tone),
{
    let accent = notice_accent_color(tone);
    match surface {
        Surface::NoticeAccentBar => Shape::Container(canonicalize_container(notice_accent_bar_style(accent))),
        Surface::NoticeOuter => Shape::Container(canonicalize_container(
            notice_outer_style(Paint::Token(Role::Surface, Tweak::Plain), accent, Measure::Radius(RadiusRole::Md)),
        )),
        Surface::ProgressBar => Shape::Progress(canonicalize_progress(toned(tone))),
    }
}

/// A tone changes the notice accent bar, the notice's outer container
/// and the progress bar through colour only: with colour normalised
/// away, every tone gives the same style.
pub proof fn tone_varies_colour_only(surface: Surface, a: Tone, b: Tone)
    ensures
        spec_shape(surface, a) == spec_shape(surface, b),
{
}

/// All six tones.
pub fn all_tones() -> (tones: Vec<Tone>)
    ensures
        tones@ == seq![Tone::Neutral, Tone::Accent, Tone::Success, Tone::Warning, Tone::Danger, Tone::Info],
{
    let tones = vec![Tone::Neutral, Tone::Accent, Tone::Success, Tone::Warning, Tone::Danger, Tone::Info];
    assert(tones@ =~= seq![Tone::Neutral, Tone::Accent, Tone::Success, Tone::Warning, Tone::Danger, Tone::Info]);
    tones
}

/// The name of a tone, as failure reports print it.
pub fn tone_label(tone: Tone) -> (label: &'static str)
    ensures
        label@ == (match tone {
            Tone::Neutral => "Neutral"@,
            Tone::Accent => "Accent"@,
            Tone::Success => "Success"@,
            Tone::Warning => "Warning"@,
            Tone::Danger => "Danger"@,
            Tone::Info => "Info"@,
        }),
{
    match tone {
        Tone::Neutral => "Neutral",
        Tone::Accent => "Accent",
        Tone::Success => "Success",
        Tone::Warning => "Warning",
        Tone::Danger => "Danger",
        Tone::Info => "Info",
    }
}

/// The name of a surface, as failure reports print it.
pub fn surface_label(surface: Surface) -> (label: &'static str)
    ensures
        label@ == (match surface {
            Surface::NoticeAccentBar => "notice accent bar"@,
            Surface::NoticeOuter => "notice outer container"@,
            Surface::ProgressBar => "progress bar"@,
        }),
{
    match surface {
        Surface::NoticeAccentBar => "notice accent bar",
        Surface::NoticeOuter => "notice outer container",
        Surface::ProgressBar => "progress bar",
    }
}

/// The six tones, in the order failures are reported.
pub open spec fn spec_all_tones() -> Seq<Tone> {
    seq![Tone::Neutral, Tone::Accent, Tone::Success, Tone::Warning, Tone::Danger, Tone::Info]
}

/// The name of a tone, as failure reports print it.
pub open spec fn spec_tone_label(tone: Tone) -> Seq<char> {
    match tone {
        Tone::Neutral => "Neutral"@,
        Tone::Accent => "Accent"@,
        Tone::Success => "Success"@,
        Tone::Warning => "Warning"@,
        Tone::Danger => "Danger"@,
        Tone::Info => "Info"@,
    }
}

/// The name of a surface, as failure reports print it.
pub open spec fn spec_surface_label(surface: Surface) -> Seq<char> {
    match surface {
        Surface::NoticeAccentBar => "notice accent bar"@,
        Surface::NoticeOuter => "notice outer container"@,
        Surface::ProgressBar => "progress bar"@,
    }
}

/// The report line for a tone of `surface` that varies by more than
/// colour: `"{surface} / {tone}: varies by more than colour"`.
pub open spec fn failure_line(surface: Surface, tone: Tone) -> Seq<char> {
    spec_surface_label(surface) + " / "@ + spec_tone_label(tone) + ": varies by more than colour"@
}

/// The report line a tone contributes: one when its shape differs from
/// the first tone's, none otherwise.
pub open spec fn tone_failure(surface: Surface) -> spec_fn(Tone) -> Option<Seq<char>> {
    |tone: Tone|
        if spec_shape(surface, tone) != spec_shape(surface, Tone::Neutral) {
            Some(failure_line(surface, tone))
        } else {
            None
        }
}

/// Every report line of `surface`, in tone order.
pub open spec fn spec_failures(surface: Surface) -> Seq<Seq<char>> {
    spec_all_tones().filter_map(tone_failure(surface))
}

/// Compares every tone's shape of `surface` with the first tone's and
/// reports each tone that varies by more than colour, as
/// `"{surface} / {tone}: varies by more than colour"`, in tone order. By
/// [`tone_varies_colour_only`] there is never such a tone, so the report
/// is empty.
pub fn colour_only_failures(surface: Surface) -> (failures: Vec<String>)
    ensures
        strings_view(failures@) == spec_failures(surface),
        failures@.len() == 0,
{
    let tones = all_tones();
    let reference = shape_of(surface, tones[0]);
    let ghost f = tone_failure(surface);
    let mut failures: Vec<String> = Vec::new();
    let mut i: usize = 0;
    assert(strings_view(failures@) =~= tones@.take(0).filter_map(f));
    while i < tones.len()
        invariant
            i <= tones@.len(),
            tones@ == spec_all_tones(),
            reference == spec_shape(surface, Tone::Neutral),
            f == tone_failure(surface),
            strings_view(failures@) == tones@.take(i as int).filter_map(f),
            failures@.len() == 0,
        decreases tones@.len() - i,
    {
        let actual = shape_of(surface, tones[i]);
        let ghost before = failures@;
        proof {
            tone_varies_colour_only(surface, tones@[i as int], Tone::Neutral);
            assert(tones@.take(i + 1).drop_last() =~= tones@.take(i as int));
            assert(tones@.take(i + 1).last() == tones@[i as int]);
        }
        if actual != reference {
            let mut message = String::from_str(surface_label(surface));
            message.append(" / ");
            message.append(tone_label(tones[i]));
            message.append(": varies by more than colour");
            failures.push(message);
        }
        proof {
            assert(f(tones@[i as int]) is None);
            assert(strings_view(failures@) =~= tones@.take(i + 1).filter_map(f));
        }
        i = i + 1;
    }
    assert(tones@.take(i as int) =~= tones@);
    failures
}

} // verus!
