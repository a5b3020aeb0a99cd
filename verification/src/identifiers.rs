//! Stable identifiers attached to the surfaces the engine renders itself.
//!
//! An application labels its own content; it cannot label the modal dim,
//! the menu backdrop or the card wrapped around its dialog content,
//! because it never sees them. These names are the single source for
//! every identifier emitted for such surfaces: `snora-` prefix,
//! kebab-case, so they never collide with an application's own names.

use vstd::prelude::*;
use crate::decimal::{decimal, decimal_is_digits, decimal_string, is_digit};

verus! {

/// The transparent, full-window click sink shown while a menu is open.
pub const MENU_BACKDROP: &'static str = "snora-menu-backdrop";

/// The full-window scrim shown while a dialog or sheet is open, whether
/// or not it captures clicks: both variants are the same surface.
pub const MODAL_DIM: &'static str = "snora-modal-dim";

/// The full-window layer that centres dialog content. Always present
/// while a dialog is open.
pub const DIALOG: &'static str = "snora-dialog";

/// The styled card around dialog content; exists on the design path only.
pub const DIALOG_CARD: &'static str = "snora-dialog-card";

/// The sheet's own opaque panel (not the spacer around it).
pub const SHEET_PANEL: &'static str = "snora-sheet-panel";

/// The toast stack's outer container.
pub const TOAST_STACK: &'static str = "snora-toast-stack";

/// The header region of the skeleton (the slot, not the content in it).
pub const HEADER_REGION: &'static str = "snora-header";

/// The sidebar region of the skeleton.
pub const SIDEBAR_REGION: &'static str = "snora-sidebar";

/// The body region of the skeleton; present in every layout.
pub const BODY_REGION: &'static str = "snora-body";

/// The footer region of the skeleton.
pub const FOOTER_REGION: &'static str = "snora-footer";

/// The prefix shared by every per-toast identifier.
pub const TOAST_PREFIX: &'static str = "snora-toast-";

/// The identifier of the toast whose application-supplied id is `id`.
pub open spec fn toast_identifier(id: nat) -> Seq<char> {
    TOAST_PREFIX@ + decimal(id)
}

/// Derives the identifier of an individual toast from its id:
/// `snora-toast-{id}`. Deterministic, so the same toast carries the same
/// identifier on every render.
pub fn toast_id(id: u64) -> (name: String)
    ensures
        name@ == toast_identifier(id as nat),
{
    let mut name = String::from_str(TOAST_PREFIX);
    let digits = decimal_string(id);
    name.append(digits.as_str());
    name
}

/// Distinct toasts get distinct identifiers: the identifier determines
/// the id it was derived from.
pub proof fn toast_id_injective(a: nat, b: nat)
    requires
        toast_identifier(a) == toast_identifier(b),
    ensures
        a == b,
{
    reveal_strlit("snora-toast-");
    let p = TOAST_PREFIX@;
    assert(toast_identifier(a).skip(p.len() as int) =~= decimal(a));
    assert(toast_identifier(b).skip(p.len() as int) =~= decimal(b));
    crate::decimal::decimal_injective(a, b);
}

/// The identifiers emitted unconditionally on the default render path.
pub open spec fn always_emitted_names() -> Seq<Seq<char>> {
    seq![
        MENU_BACKDROP@,
        MODAL_DIM@,
        DIALOG@,
        SHEET_PANEL@,
        TOAST_STACK@,
        HEADER_REGION@,
        SIDEBAR_REGION@,
        BODY_REGION@,
        FOOTER_REGION@,
    ]
}

/// The identifiers whose element exists only on the design path.
pub open spec fn design_path_only_names() -> Seq<Seq<char>> {
    seq![DIALOG_CARD@]
}

/// Every static identifier, on either path.
pub open spec fn all_static_names() -> Seq<Seq<char>> {
    always_emitted_names() + design_path_only_names()
}

/// The views of a list of names.
pub open spec fn names_view(names: Seq<&'static str>) -> Seq<Seq<char>> {
    names.map_values(|s: &'static str| s@)
}

/// Every identifier emitted regardless of the render path.
pub fn always_emitted() -> (names: Vec<&'static str>)
    ensures
        names_view(names@) == always_emitted_names(),
{
    let names = vec![
        MENU_BACKDROP,
        MODAL_DIM,
        DIALOG,
        SHEET_PANEL,
        TOAST_STACK,
        HEADER_REGION,
        SIDEBAR_REGION,
        BODY_REGION,
        FOOTER_REGION,
    ];
    assert(names_view(names@) =~= always_emitted_names());
    names
}

/// Identifiers that exist only when the design path renders the element
/// they label.
pub fn design_path_only() -> (names: Vec<&'static str>)
    ensures
        names_view(names@) == design_path_only_names(),
{
    let names = vec![DIALOG_CARD];
    assert(names_view(names@) =~= design_path_only_names());
    names
}

/// Every static identifier the engine can emit on either path: the
/// always-emitted ones followed by the design-path ones. Per-toast
/// identifiers are dynamic and not part of this set.
pub fn all_static() -> (names: Vec<&'static str>)
    ensures
        names_view(names@) == all_static_names(),
{
    let mut names = always_emitted();
    let mut extra = design_path_only();
    names.append(&mut extra);
    assert(names_view(names@) =~= all_static_names());
    names
}

/// Every static identifier carries the `snora-` prefix, no two of them
/// are the same, and none of them can be mistaken for a per-toast
/// identifier, whatever the toast's id.
pub proof fn static_names_are_distinct_and_prefixed(id: nat)
    ensures
        forall|i: int|
            0 <= i < all_static_names().len() ==> (#[trigger] all_static_names()[i]).take(6)
                == "snora-"@,
        forall|i: int, j: int|
            0 <= i < j < all_static_names().len() ==> all_static_names()[i]
                != all_static_names()[j],
        forall|i: int|
            0 <= i < all_static_names().len() ==> #[trigger] all_static_names()[i]
                != toast_identifier(id),
{
    reveal_strlit("snora-menu-backdrop");
    reveal_strlit("snora-modal-dim");
    reveal_strlit("snora-dialog");
    reveal_strlit("snora-dialog-card");
    reveal_strlit("snora-sheet-panel");
    reveal_strlit("snora-toast-stack");
    reveal_strlit("snora-header");
    reveal_strlit("snora-sidebar");
    reveal_strlit("snora-body");
    reveal_strlit("snora-footer");
    reveal_strlit("snora-toast-");
    reveal_strlit("snora-");
    let s = all_static_names();
    let t = toast_identifier(id);
    decimal_is_digits(id);
    assert(TOAST_PREFIX@ == "snora-toast-"@);
    assert("snora-toast-"@.len() == 12);
    assert(t.len() >= 13);
    assert(t[12] == decimal(id)[0]);
    assert(is_digit(t[12]));
    assert(t[6] == 't');
    assert(s.len() == 10);
    assert(s[0].len() == 19 && s[0][6] == 'm');
    assert(s[1].len() == 15 && s[1][6] == 'm');
    assert(s[2].len() == 12 && s[2][6] == 'd');
    assert(s[3].len() == 17 && s[3][6] == 's');
    assert(s[4].len() == 17 && s[4][6] == 't' && s[4][12] == 's');
    assert(s[5].len() == 12 && s[5][6] == 'h');
    assert(s[6].len() == 13 && s[6][6] == 's');
    assert(s[7].len() == 10 && s[7][6] == 'b');
    assert(s[8].len() == 12 && s[8][6] == 'f');
    assert(s[9].len() == 17 && s[9][6] == 'd');
    assert forall|i: int| 0 <= i < s.len() implies (#[trigger] s[i]).take(6) == "snora-"@ by {
        assert(s[i].take(6) =~= "snora-"@);
    }
    assert forall|i: int, j: int| 0 <= i < j < s.len() implies s[i] != s[j] by {
        assert(s[i].len() != s[j].len() || s[i][6] != s[j][6]);
    }
    assert forall|i: int| 0 <= i < s.len() implies #[trigger] s[i] != t by {
        assert(s[i].len() < 13 || s[i][6] != t[6] || s[i][12] != t[12]);
    }
}

} // verus!
