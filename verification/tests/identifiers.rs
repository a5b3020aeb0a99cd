use snora::emitted::emitted_identifiers;
use snora::identifiers::{
    all_static, always_emitted, design_path_only, toast_id, BODY_REGION, DIALOG, DIALOG_CARD,
    FOOTER_REGION, HEADER_REGION, MENU_BACKDROP, MODAL_DIM, SHEET_PANEL, SIDEBAR_REGION,
    TOAST_STACK,
};
use snora::layout::{AppLayout, Dialog, Sheet};
use snora::reference_page::documented_identifiers;
use snora::render::{render, render_design};
use snora::sheet::SheetEdge;
use snora::toast::{Toast, ToastIntent};

#[derive(Debug, Clone, PartialEq, Eq)]
enum Msg {
    Noop,
}

/// The identifier table of the rendered-surface reference page.
const REFERENCE_PAGE: &str = "# Rendered-surface identifiers

Every surface the engine draws itself carries a stable identifier.
Individual toasts carry `snora-toast-{id}`, derived from the toast's id;
that pattern is dynamic and is not listed in the table below.

| Identifier | Surface | Render path |
|---|---|---|
| `snora-menu-backdrop` | transparent click sink behind open menus | both |
| `snora-modal-dim` | full-window scrim behind a dialog or sheet | both |
| `snora-dialog` | full-window layer centring the dialog | both |
| `snora-dialog-card` | styled card around dialog content | design only |
| `snora-sheet-panel` | the sheet's opaque panel | both |
| `snora-toast-stack` | the toast stack's outer container | both |
| `snora-header` | header region | both |
| `snora-sidebar` | sidebar region | both |
| `snora-body` | body region | both |
| `snora-footer` | footer region | both |
";

fn el() -> &'static str {
    "x"
}

#[test]
fn identifiers_present_in_rendered_output() {
    let dialog = Dialog::new(el());
    let sheet = Sheet::new(el()).at(SheetEdge::Bottom);
    let toast = Toast::new(7, ToastIntent::Info, "t", "m", Msg::Noop);

    let layout = AppLayout::new(el())
        .header(el())
        .side_bar(el())
        .footer(el())
        .header_menu(el())
        .dialog(dialog)
        .sheet(sheet)
        .toasts(vec![toast])
        .on_close_menus(Msg::Noop)
        .on_close_modals(Msg::Noop);

    // The plain path draws every always-emitted surface, and no card.
    let layers = render(layout);
    let emitted = emitted_identifiers(&layers);

    for name in always_emitted() {
        assert!(
            emitted.iter().any(|e| e == name),
            "expected to find a widget with id {name:?}"
        );
    }
    assert!(!emitted.iter().any(|e| e == DIALOG_CARD));

    // The per-toast identifier, derived from the toast's own id (7 above).
    assert!(
        emitted.iter().any(|e| *e == toast_id(7)),
        "expected to find the individual toast's identifier"
    );
}

#[test]
fn modal_dim_present_without_close_handler() {
    let dialog = Dialog::new(el());
    let layout: AppLayout<&str, Msg> = AppLayout::new(el()).dialog(dialog);
    // on_close_modals intentionally absent.

    let layers = render(layout);
    let emitted = emitted_identifiers(&layers);

    assert!(
        emitted.iter().any(|e| e == MODAL_DIM),
        "dim_without_capture must also carry MODAL_DIM"
    );
}

#[test]
fn documented_identifiers_match_emitted_set() {
    let mut documented = documented_identifiers(REFERENCE_PAGE);
    documented.sort();
    documented.dedup();

    let mut emitted: Vec<String> = all_static().iter().map(|s| (*s).to_string()).collect();
    emitted.sort();

    assert_eq!(
        documented, emitted,
        "the reference page's identifier table must list exactly the static set"
    );
}

#[test]
fn toast_id_is_stable_and_derived_deterministically() {
    assert_eq!(
        toast_id(42),
        toast_id(42),
        "the same toast id must always derive the same identifier"
    );
    assert_eq!(toast_id(42), "snora-toast-42");
    assert_ne!(
        toast_id(1),
        toast_id(2),
        "different toast ids must derive different identifiers"
    );
}

#[test]
fn toast_id_covers_the_whole_id_range() {
    assert_eq!(toast_id(0), "snora-toast-0");
    assert_eq!(toast_id(10), "snora-toast-10");
    assert_eq!(toast_id(u64::MAX), "snora-toast-18446744073709551615");
}

#[test]
fn static_identifiers_are_distinct_and_prefixed() {
    let names = all_static();
    assert_eq!(names.len(), 10);
    for (i, a) in names.iter().enumerate() {
        assert!(a.starts_with("snora-"));
        for b in names.iter().skip(i + 1) {
            assert_ne!(a, b);
        }
    }
}

#[test]
fn static_set_is_always_emitted_then_design_only() {
    let mut expected = always_emitted();
    expected.extend(design_path_only());
    assert_eq!(all_static(), expected);
    assert_eq!(design_path_only(), vec![DIALOG_CARD]);
    assert_eq!(
        always_emitted(),
        vec![
            MENU_BACKDROP,
            MODAL_DIM,
            DIALOG,
            SHEET_PANEL,
            TOAST_STACK,
            HEADER_REGION,
            SIDEBAR_REGION,
            BODY_REGION,
            FOOTER_REGION,
        ]
    );
}

#[test]
fn dialog_card_only_on_the_design_path() {
    let plain = render(AppLayout::<&str, Msg>::new(el()).dialog(Dialog::new(el())));
    let plain_ids = emitted_identifiers(&plain);
    assert!(plain_ids.iter().any(|e| e == DIALOG));
    assert!(!plain_ids.iter().any(|e| e == DIALOG_CARD));

    let design = render_design(AppLayout::<&str, Msg>::new(el()).dialog(Dialog::new(el())));
    let design_ids = emitted_identifiers(&design);
    assert!(design_ids.iter().any(|e| e == DIALOG));
    assert!(design_ids.iter().any(|e| e == DIALOG_CARD));
}

#[test]
fn emitted_identifiers_follow_stack_order() {
    let layout = AppLayout::new(el())
        .header(el())
        .side_bar(el())
        .footer(el())
        .toasts(vec![
            Toast::new(3, ToastIntent::Info, "a", "b", Msg::Noop),
            Toast::new(9, ToastIntent::Error, "c", "d", Msg::Noop),
        ]);
    let ids = emitted_identifiers(&render(layout));
    assert_eq!(
        ids,
        vec![
            HEADER_REGION.to_string(),
            SIDEBAR_REGION.to_string(),
            BODY_REGION.to_string(),
            FOOTER_REGION.to_string(),
            TOAST_STACK.to_string(),
            "snora-toast-3".to_string(),
            "snora-toast-9".to_string(),
        ]
    );
}

#[test]
fn idle_layout_emits_only_the_body() {
    let ids = emitted_identifiers(&render(AppLayout::<&str, Msg>::new(el())));
    assert_eq!(ids, vec![BODY_REGION.to_string()]);
}

#[test]
fn reference_page_ignores_prose_and_other_rows() {
    let page = "Toasts are named `snora-toast-{id}`.\n\
                | `snora-toast-{id}` in prose? no: this one is a row\n\
                | `other-name` | not ours |\n\
                   | `snora-body` | indented row |\n\
                | `snora-unterminated\n\
                |`snora-footer` | no space after the bar |";
    let names = documented_identifiers(page);
    assert_eq!(names, vec!["snora-toast-{id}".to_string(), "snora-body".to_string()]);
}

#[test]
fn reference_page_without_table_lists_nothing() {
    assert!(documented_identifiers("").is_empty());
    assert!(documented_identifiers("no table here\n\n").is_empty());
}

#[test]
fn dialog_card_identifier_resolves_to_the_card_not_the_window() {
    let layout = AppLayout::new("body").dialog(Dialog::new("dialog content")).on_close_modals(Msg::Noop);
    let layers = render_design(layout);
    let ids = emitted_identifiers(&layers);
    // The centring wrapper and the card are two surfaces with two
    // identifiers; the card's comes with the dialog layer, after the
    // wrapper's, never in its place.
    let wrapper = ids.iter().position(|e| e == DIALOG).expect("snora-dialog must resolve on the design path");
    let card = ids.iter().position(|e| e == DIALOG_CARD).expect("snora-dialog-card must resolve on the design path");
    assert_eq!(card, wrapper + 1);
    assert_eq!(ids.iter().filter(|e| *e == DIALOG).count(), 1);
}

#[test]
fn every_emitted_identifier_is_documented() {
    let layout = AppLayout::new(el())
        .header(el())
        .side_bar(el())
        .footer(el())
        .context_menu(el())
        .dialog(Dialog::new(el()))
        .sheet(Sheet::new(el()))
        .toasts(vec![
            Toast::new(5, ToastIntent::Success, "a", "b", Msg::Noop),
            Toast::new(8, ToastIntent::Warning, "c", "d", Msg::Noop),
        ])
        .on_close_menus(Msg::Noop);
    let statics: Vec<String> = all_static().iter().map(|s| s.to_string()).collect();
    let toasts = [toast_id(5), toast_id(8)];
    let layers = render_design(layout);
    for id in emitted_identifiers(&layers) {
        assert!(statics.contains(&id) || toasts.contains(&id), "undocumented identifier {id}");
    }
}

#[test]
fn table_rows_are_trimmed_exactly_of_unicode_white_space() {
    for code in (0u32..0x3100).chain([0x10FFFF, 0xFEFF, 0x200B, 0x180E]) {
        let Some(c) = char::from_u32(code) else { continue };
        if c == '\n' {
            continue;
        }
        let page = format!("{c}| `snora-body` | body |");
        let names = documented_identifiers(&page);
        assert_eq!(!names.is_empty(), c.is_whitespace(), "leading U+{code:04X}");
    }
}
