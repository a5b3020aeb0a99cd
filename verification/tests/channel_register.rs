use snora::channel_register::{
    all_tones, canonicalize_container, canonicalize_progress, colour_only_failures, shape_of,
    surface_label, tone_label, Shape, Surface,
};
use snora::paint::{Border, BoxStyle, Measure, Paint, ProgressStyle, RadiusRole, Role, Shadow, Tone, Tweak};
use snora::report::assert_no_failures;

fn assert_colour_only(surface: Surface) {
    let outcome = assert_no_failures(colour_only_failures(surface));
    if let Err(report) = outcome {
        panic!("{report}");
    }
}

#[test]
fn notice_accent_bar_varies_by_colour_only() {
    assert_colour_only(Surface::NoticeAccentBar);
}

#[test]
fn notice_outer_container_varies_by_colour_only() {
    assert_colour_only(Surface::NoticeOuter);
}

#[test]
fn progress_bar_varies_by_colour_only() {
    assert_colour_only(Surface::ProgressBar);
}

#[test]
fn every_tone_has_the_reference_shape() {
    for surface in [Surface::NoticeAccentBar, Surface::NoticeOuter, Surface::ProgressBar] {
        let reference = shape_of(surface, Tone::Neutral);
        for tone in all_tones() {
            assert_eq!(shape_of(surface, tone), reference, "{} / {}", surface_label(surface), tone_label(tone));
        }
    }
}

#[test]
fn canonical_container_keeps_shape_and_drops_colour() {
    let style = BoxStyle {
        background: Some(Paint::Token(Role::Danger, Tweak::Darken(6))),
        text: None,
        border: Border { color: Paint::Token(Role::Info, Tweak::Plain), width: 3, radius: Measure::Radius(RadiusRole::Lg) },
        shadow: Shadow::Soft,
    };
    let canonical = canonicalize_container(style);
    assert_eq!(
        canonical,
        BoxStyle {
            background: Some(Paint::White),
            text: None,
            border: Border { color: Paint::White, width: 3, radius: Measure::Radius(RadiusRole::Lg) },
            shadow: Shadow::Soft,
        }
    );
}

#[test]
fn canonical_container_still_tells_shapes_apart() {
    let a = BoxStyle {
        background: Some(Paint::Black),
        text: Some(Paint::Black),
        border: Border { color: Paint::Black, width: 1, radius: Measure::Px(0) },
        shadow: Shadow::Flat,
    };
    let wider = BoxStyle { border: Border { width: 2, ..a.border }, ..a };
    let unfilled = BoxStyle { background: None, ..a };
    assert_ne!(canonicalize_container(a), canonicalize_container(wider));
    assert_ne!(canonicalize_container(a), canonicalize_container(unfilled));
    let recoloured = BoxStyle { text: Some(Paint::WarningAmber), ..a };
    assert_eq!(canonicalize_container(a), canonicalize_container(recoloured));
}

#[test]
fn canonical_progress_keeps_only_the_border_shape() {
    let style = ProgressStyle {
        track: Paint::Black,
        bar: Paint::Token(Role::Success, Tweak::Plain),
        border: Border { color: Paint::Transparent, width: 2, radius: Measure::Px(5) },
    };
    assert_eq!(
        canonicalize_progress(style),
        ProgressStyle {
            track: Paint::White,
            bar: Paint::White,
            border: Border { color: Paint::White, width: 2, radius: Measure::Px(5) },
        }
    );
}

#[test]
fn the_three_surfaces_have_different_shapes() {
    let bar = shape_of(Surface::NoticeAccentBar, Tone::Accent);
    let outer = shape_of(Surface::NoticeOuter, Tone::Accent);
    let progress = shape_of(Surface::ProgressBar, Tone::Accent);
    assert_ne!(bar, outer);
    assert!(matches!(progress, Shape::Progress(_)));
}

#[test]
fn tone_and_surface_labels() {
    let labels: Vec<&str> = all_tones().into_iter().map(tone_label).collect();
    assert_eq!(labels, vec!["Neutral", "Accent", "Success", "Warning", "Danger", "Info"]);
    assert_eq!(surface_label(Surface::NoticeAccentBar), "notice accent bar");
    assert_eq!(surface_label(Surface::NoticeOuter), "notice outer container");
    assert_eq!(surface_label(Surface::ProgressBar), "progress bar");
}

#[test]
fn no_failures_is_ok() {
    assert_eq!(assert_no_failures(Vec::new()), Ok(()));
}

#[test]
fn failures_are_all_reported() {
    let outcome = assert_no_failures(vec!["first".to_string(), "second".to_string()]);
    assert_eq!(outcome, Err("2 failing combination(s):\nfirst\nsecond".to_string()));
    let single = assert_no_failures(vec!["only".to_string()]);
    assert_eq!(single, Err("1 failing combination(s):\nonly".to_string()));
}
