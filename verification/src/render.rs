//! The engine: composing an [`AppLayout`] into the ordered stack of
//! layers the renderer draws, bottom to top.
//!
//! ```text
//! 0. skeleton        header + (side bar | body) + footer
//! 1. menu backdrop   transparent click sink, emits on_close_menus
//! 2. header menu
//! 3. context menu
//! 4. modal dim       emits on_close_modals when one is set
//! 5. dialog
//! 6. sheet
//! 7. toasts
//! ```
//!
//! Overlay content is never dropped for want of a close message: without
//! `on_close_menus` only the menu backdrop is left out; without
//! `on_close_modals` the dim is still drawn (and still blocks the content
//! beneath), it just emits nothing.

use vstd::prelude::*;
use crate::direction::{LayoutDirection, physical_order, in_physical_order};
use crate::layout::{AppLayout, Dialog, Sheet};
use crate::toast::{Toast, ToastPosition};

verus! {

/// One slot of the skeleton's middle row.
pub enum Region<E> {
    SideBar(E),
    Body(E),
}

/// The skeleton: an optional header, the middle row in physical left to
/// right order, an optional footer.
pub struct Skeleton<E> {
    pub header: Option<E>,
    pub row: Vec<Region<E>>,
    pub footer: Option<E>,
}

/// How the modal dim is painted.
#[derive(Debug, Clone, Copy, PartialEq, Eq, Structural)]
pub enum DimPaint {
    /// Black at 40 % opacity, whatever the theme.
    Unstyled,
    /// The pole opposite the page background, at the design alpha.
    FromTokens,
}

/// The values that differ between the plain and the design render paths.
#[derive(Debug, Clone, Copy, PartialEq, Eq, Structural)]
pub struct ChromeStyle {
    pub dim: DimPaint,
    /// Whether dialog content is wrapped in a styled card.
    pub dialog_card: bool,
}

impl ChromeStyle {
    /// The plain path: fixed dim, no card.
    pub fn unstyled() -> (style: ChromeStyle)
        ensures
            style == (ChromeStyle { dim: DimPaint::Unstyled, dialog_card: false }),
    {
        ChromeStyle { dim: DimPaint::Unstyled, dialog_card: false }
    }

    /// The design path: token-derived dim, carded dialog.
    pub fn design() -> (style: ChromeStyle)
        ensures
            style == (ChromeStyle { dim: DimPaint::FromTokens, dialog_card: true }),
    {
        ChromeStyle { dim: DimPaint::FromTokens, dialog_card: true }
    }
}

/// One layer of the composed stack.
pub enum Layer<E, M> {
    Skeleton(Skeleton<E>),
    /// Full-window transparent sink; pressing it emits the message.
    MenuBackdrop(M),
    HeaderMenu(E),
    ContextMenu(E),
    /// Full-window dim; pressing or scrolling it emits the message, if any.
    ModalDim { on_press: Option<M>, paint: DimPaint },
    Dialog { dialog: Dialog<E>, card: bool },
    Sheet { sheet: Sheet<E>, direction: LayoutDirection },
    Toasts { queue: Vec<Toast<M>>, position: ToastPosition, direction: LayoutDirection },
}

/// The layer's place in the fixed bottom-to-top order.
pub open spec fn rank<E, M>(layer: Layer<E, M>) -> int {
    match layer {
        Layer::Skeleton(_) => 0,
        Layer::MenuBackdrop(_) => 1,
        Layer::HeaderMenu(_) => 2,
        Layer::ContextMenu(_) => 3,
        Layer::ModalDim { .. } => 4,
        Layer::Dialog { .. } => 5,
        Layer::Sheet { .. } => 6,
        Layer::Toasts { .. } => 7,
    }
}

/// The middle row of the skeleton: the side bar on the logical start
/// side of the body.
pub open spec fn spec_body_row<E>(direction: LayoutDirection, side_bar: Option<E>, body: E) -> Seq<Region<E>> {
    match side_bar {
        Some(s) => physical_order(direction, seq![Region::SideBar(s), Region::Body(body)]),
        None => seq![Region::Body(body)],
    }
}

/// The layers an optional value contributes: one when present.
pub open spec fn optional<T, L>(value: Option<T>, layer: spec_fn(T) -> L) -> Seq<L> {
    match value {
        Some(v) => seq![layer(v)],
        None => Seq::empty(),
    }
}

/// Whether the layout holds an open menu.
pub open spec fn has_menu<E, M>(layout: AppLayout<E, M>) -> bool {
    layout.header_menu is Some || layout.context_menu is Some
}

/// Whether the layout holds an open modal.
pub open spec fn has_modal<E, M>(layout: AppLayout<E, M>) -> bool {
    layout.dialog is Some || layout.sheet is Some
}

/// The menu layers: the backdrop (only when a menu is open and a close
/// message is set), then the header menu, then the context menu.
pub open spec fn menu_part<E, M>(header_menu: Option<E>, context_menu: Option<E>, on_close_menus: Option<M>) -> Seq<Layer<E, M>> {
    let backdrop = if header_menu is Some || context_menu is Some {
        optional(on_close_menus, |m: M| Layer::<E, M>::MenuBackdrop(m))
    } else {
        Seq::empty()
    };
    backdrop + optional(header_menu, |e: E| Layer::<E, M>::HeaderMenu(e)) + optional(
        context_menu,
        |e: E| Layer::<E, M>::ContextMenu(e),
    )
}

/// The modal layers: the dim (whenever a dialog or sheet is open, with or
/// without a close message), then the dialog, then the sheet.
pub open spec fn modal_part<E, M>(
    dialog: Option<Dialog<E>>,
    sheet: Option<Sheet<E>>,
    on_close_modals: Option<M>,
    style: ChromeStyle,
    direction: LayoutDirection,
) -> Seq<Layer<E, M>> {
    let dim = if dialog is Some || sheet is Some {
        seq![Layer::<E, M>::ModalDim { on_press: on_close_modals, paint: style.dim }]
    } else {
        Seq::empty()
    };
    dim + optional(dialog, |d: Dialog<E>| Layer::<E, M>::Dialog { dialog: d, card: style.dialog_card })
        + optional(sheet, |s: Sheet<E>| Layer::<E, M>::Sheet { sheet: s, direction })
}

/// The toast layer, present only when the queue is not empty.
pub open spec fn toast_part<E, M>(toasts: Vec<Toast<M>>, position: ToastPosition, direction: LayoutDirection) -> Seq<Layer<E, M>> {
    if toasts@.len() > 0 {
        seq![Layer::<E, M>::Toasts { queue: toasts, position, direction }]
    } else {
        Seq::empty()
    }
}

/// The layers above the skeleton, bottom to top.
pub open spec fn overlay_layers<E, M>(layout: AppLayout<E, M>, style: ChromeStyle) -> Seq<Layer<E, M>> {
    menu_part(layout.header_menu, layout.context_menu, layout.on_close_menus)
        + modal_part(layout.dialog, layout.sheet, layout.on_close_modals, style, layout.direction)
        + toast_part(layout.toasts, layout.toast_position, layout.direction)
}

/// Whether `skeleton` is the skeleton of `layout`.
pub open spec fn is_skeleton_of<E, M>(skeleton: Skeleton<E>, layout: AppLayout<E, M>) -> bool {
    &&& skeleton.header == layout.header
    &&& skeleton.footer == layout.footer
    &&& skeleton.row@ == spec_body_row(layout.direction, layout.side_bar, layout.body)
}

/// Whether `layers` is the stack composed from `layout` with `style`.
pub open spec fn is_composition_of<E, M>(layers: Seq<Layer<E, M>>, layout: AppLayout<E, M>, style: ChromeStyle) -> bool {
    &&& layers.len() >= 1
    &&& layers[0] matches Layer::Skeleton(skeleton) && is_skeleton_of(skeleton, layout)
    &&& layers.drop_first() == overlay_layers(layout, style)
}

fn body_row<E>(direction: LayoutDirection, side_bar: Option<E>, body: E) -> (row: Vec<Region<E>>)
    ensures
        row@ == spec_body_row(direction, side_bar, body),
{
    match side_bar {
        Some(s) => {
            let mut logical: Vec<Region<E>> = Vec::new();
            logical.push(Region::SideBar(s));
            logical.push(Region::Body(body));
            assert(logical@ =~= seq![Region::SideBar(s), Region::Body(body)]);
            in_physical_order(direction, logical)
        },
        None => {
            let mut row: Vec<Region<E>> = Vec::new();
            row.push(Region::Body(body));
            assert(row@ =~= seq![Region::Body(body)]);
            row
        },
    }
}

fn push_menus<E, M>(
    layers: &mut Vec<Layer<E, M>>,
    header_menu: Option<E>,
    context_menu: Option<E>,
    on_close_menus: Option<M>,
)
    ensures
        final(layers)@ == old(layers)@ + menu_part(header_menu, context_menu, on_close_menus),
{
    let ghost start = layers@;
    let menu_open = header_menu.is_some() || context_menu.is_some();
    if menu_open {
        if let Some(m) = on_close_menus {
            layers.push(Layer::MenuBackdrop(m));
        }
    }
    if let Some(e) = header_menu {
        layers.push(Layer::HeaderMenu(e));
    }
    if let Some(e) = context_menu {
        layers.push(Layer::ContextMenu(e));
    }
    assert(layers@ =~= start + menu_part(header_menu, context_menu, on_close_menus));
}

fn push_modals<E, M>(
    layers: &mut Vec<Layer<E, M>>,
    dialog: Option<Dialog<E>>,
    sheet: Option<Sheet<E>>,
    on_close_modals: Option<M>,
    style: ChromeStyle,
    direction: LayoutDirection,
)
    ensures
        final(layers)@ == old(layers)@ + modal_part(dialog, sheet, on_close_modals, style, direction),
{
    let ghost start = layers@;
    let modal_open = dialog.is_some() || sheet.is_some();
    if modal_open {
        layers.push(Layer::ModalDim { on_press: on_close_modals, paint: style.dim });
    }
    if let Some(d) = dialog {
        layers.push(Layer::Dialog { dialog: d, card: style.dialog_card });
    }
    if let Some(s) = sheet {
        layers.push(Layer::Sheet { sheet: s, direction });
    }
    assert(layers@ =~= start + modal_part(dialog, sheet, on_close_modals, style, direction));
}

fn push_toasts<E, M>(
    layers: &mut Vec<Layer<E, M>>,
    toasts: Vec<Toast<M>>,
    position: ToastPosition,
    direction: LayoutDirection,
)
    ensures
        final(layers)@ == old(layers)@ + toast_part::<E, M>(toasts, position, direction),
{
    let ghost start = layers@;
    let ghost t = toasts;
    if toasts.len() > 0 {
        layers.push(Layer::Toasts { queue: toasts, position, direction });
    }
    assert(layers@ =~= start + toast_part::<E, M>(t, position, direction));
}

/// Composes `layout` into its layer stack with the given style. The
/// stack order, the conditions on each layer and the backdrop wiring are
/// written once and shared by both render paths.
pub fn render_with_style<E, M>(layout: AppLayout<E, M>, style: ChromeStyle) -> (layers: Vec<Layer<E, M>>)
    ensures
        is_composition_of(layers@, layout, style),
{
    let ghost l = layout;
    let AppLayout {
        header,
        side_bar,
        body,
        footer,
        header_menu,
        context_menu,
        dialog,
        sheet,
        toasts,
        toast_position,
        direction,
        on_close_menus,
        on_close_modals,
    } = layout;
    let mut layers: Vec<Layer<E, M>> = Vec::new();
    let row = body_row(direction, side_bar, body);
    layers.push(Layer::Skeleton(Skeleton { header, row, footer }));
    let ghost base = layers@;

    push_menus(&mut layers, header_menu, context_menu, on_close_menus);
    push_modals(&mut layers, dialog, sheet, on_close_modals, style, direction);
    push_toasts(&mut layers, toasts, toast_position, direction);
    assert(base.len() == 1);
    assert(layers@.drop_first() =~= overlay_layers(l, style));
    layers
}

/// Composes `layout` on the plain path: fixed dim, no dialog card.
pub fn render<E, M>(layout: AppLayout<E, M>) -> (layers: Vec<Layer<E, M>>)
    ensures
        is_composition_of(layers@, layout, ChromeStyle { dim: DimPaint::Unstyled, dialog_card: false }),
{
    render_with_style(layout, ChromeStyle::unstyled())
}

/// Composes `layout` on the design path: token-derived dim, and dialog
/// content wrapped in a styled card.
pub fn render_design<E, M>(layout: AppLayout<E, M>) -> (layers: Vec<Layer<E, M>>)
    ensures
        is_composition_of(layers@, layout, ChromeStyle { dim: DimPaint::FromTokens, dialog_card: true }),
{
    render_with_style(layout, ChromeStyle::design())
}

/// The modal dim `layout` gets: it emits `on_close_modals`, if set.
pub open spec fn dim_layer<E, M>(layout: AppLayout<E, M>, style: ChromeStyle) -> Layer<E, M> {
    Layer::ModalDim { on_press: layout.on_close_modals, paint: style.dim }
}

/// The toast layer `layout` gets when its queue is not empty.
pub open spec fn toast_layer<E, M>(layout: AppLayout<E, M>) -> Layer<E, M> {
    Layer::Toasts { queue: layout.toasts, position: layout.toast_position, direction: layout.direction }
}

/// Whether the layers' ranks strictly increase and lie in `[lo, hi]`.
pub open spec fn ranked_within<E, M>(layers: Seq<Layer<E, M>>, lo: int, hi: int) -> bool {
    &&& forall|i: int| 0 <= i < layers.len() ==> lo <= #[trigger] rank(layers[i]) <= hi
    &&& forall|i: int, j: int| 0 <= i < j < layers.len() ==> rank(layers[i]) < rank(layers[j])
}

proof fn ranked_concat<E, M>(a: Seq<Layer<E, M>>, b: Seq<Layer<E, M>>, lo: int, mid: int, hi: int)
    requires
        lo <= mid < hi,
        ranked_within(a, lo, mid),
        ranked_within(b, mid + 1, hi),
    ensures
        ranked_within(a + b, lo, hi),
{
    assert forall|i: int, j: int| 0 <= i < j < (a + b).len() implies rank((a + b)[i]) < rank(
        (a + b)[j],
    ) by {
        if j < a.len() {
            assert((a + b)[i] == a[i]);
            assert((a + b)[j] == a[j]);
        } else if i >= a.len() {
            assert((a + b)[i] == b[i - a.len()]);
            assert((a + b)[j] == b[j - a.len()]);
        } else {
            assert(rank(a[i]) <= mid);
            assert(rank(b[j - a.len()]) >= mid + 1);
        }
    }
    assert forall|i: int| 0 <= i < (a + b).len() implies lo <= #[trigger] rank((a + b)[i]) <= hi by {
        if i >= a.len() {
            assert((a + b)[i] == b[i - a.len()]);
            assert(mid + 1 <= rank(b[i - a.len()]) <= hi);
        } else {
            assert((a + b)[i] == a[i]);
            assert(lo <= rank(a[i]) <= mid);
        }
    }
}

proof fn optional_ranked<T, E, M>(value: Option<T>, f: spec_fn(T) -> Layer<E, M>, r: int)
    requires
        forall|t: T| #[trigger] rank(f(t)) == r,
    ensures
        ranked_within(optional(value, f), r, r),
{
}

/// The stack always follows the fixed bottom-to-top order: the skeleton
/// first, then menu backdrop, header menu, context menu, modal dim,
/// dialog, sheet and toasts, each at most once.
pub proof fn layers_follow_fixed_order<E, M>(layout: AppLayout<E, M>, style: ChromeStyle)
    ensures
        ranked_within(overlay_layers(layout, style), 1, 7),
{
    let backdrop = if layout.header_menu is Some || layout.context_menu is Some {
        optional(layout.on_close_menus, |m: M| Layer::<E, M>::MenuBackdrop(m))
    } else {
        Seq::empty()
    };
    optional_ranked(layout.on_close_menus, |m: M| Layer::<E, M>::MenuBackdrop(m), 1);
    let hm = optional(layout.header_menu, |e: E| Layer::<E, M>::HeaderMenu(e));
    let cm = optional(layout.context_menu, |e: E| Layer::<E, M>::ContextMenu(e));
    optional_ranked(layout.header_menu, |e: E| Layer::<E, M>::HeaderMenu(e), 2);
    optional_ranked(layout.context_menu, |e: E| Layer::<E, M>::ContextMenu(e), 3);
    ranked_concat(backdrop, hm, 1, 1, 2);
    ranked_concat(backdrop + hm, cm, 1, 2, 3);
    let dim = if layout.dialog is Some || layout.sheet is Some {
        seq![Layer::<E, M>::ModalDim { on_press: layout.on_close_modals, paint: style.dim }]
    } else {
        Seq::empty()
    };
    let dl = optional(layout.dialog, |d: Dialog<E>| Layer::<E, M>::Dialog { dialog: d, card: style.dialog_card });
    let direction = layout.direction;
    let sh = optional(layout.sheet, |s: Sheet<E>| Layer::<E, M>::Sheet { sheet: s, direction });
    optional_ranked(layout.dialog, |d: Dialog<E>| Layer::<E, M>::Dialog { dialog: d, card: style.dialog_card }, 5);
    optional_ranked(layout.sheet, |s: Sheet<E>| Layer::<E, M>::Sheet { sheet: s, direction }, 6);
    ranked_concat(dim, dl, 4, 4, 5);
    ranked_concat(dim + dl, sh, 4, 5, 6);
    let tp = toast_part::<E, M>(layout.toasts, layout.toast_position, layout.direction);
    assert(ranked_within(tp, 7, 7));
    let menus = menu_part(layout.header_menu, layout.context_menu, layout.on_close_menus);
    let modals = modal_part(layout.dialog, layout.sheet, layout.on_close_modals, style, layout.direction);
    assert(menus == backdrop + hm + cm);
    assert(modals == dim + dl + sh);
    ranked_concat(menus, modals, 1, 3, 6);
    ranked_concat(menus + modals, tp, 1, 6, 7);
}

/// No silent drops: every overlay the layout holds is drawn, whether or
/// not a close message is set, and so is a non-empty toast queue.
pub proof fn overlays_are_never_dropped<E, M>(layout: AppLayout<E, M>, style: ChromeStyle)
    ensures
        layout.header_menu matches Some(e) ==> overlay_layers(layout, style).contains(
            Layer::HeaderMenu(e),
        ),
        layout.context_menu matches Some(e) ==> overlay_layers(layout, style).contains(
            Layer::ContextMenu(e),
        ),
        layout.dialog matches Some(d) ==> overlay_layers(layout, style).contains(
            (Layer::Dialog { dialog: d, card: style.dialog_card }),
        ),
        layout.sheet matches Some(s) ==> overlay_layers(layout, style).contains(
            (Layer::Sheet { sheet: s, direction: layout.direction }),
        ),
        layout.toasts@.len() > 0 ==> overlay_layers(layout, style).contains(toast_layer(layout)),
{
    let menus = menu_part(layout.header_menu, layout.context_menu, layout.on_close_menus);
    let modals = modal_part(layout.dialog, layout.sheet, layout.on_close_modals, style, layout.direction);
    let tp = toast_part::<E, M>(layout.toasts, layout.toast_position, layout.direction);
    let all = overlay_layers(layout, style);
    assert(all == menus + modals + tp);
    if let Some(e) = layout.header_menu {
        let k = menus.len() - 1 - (if layout.context_menu is Some { 1int } else { 0 });
        assert(menus[k] == Layer::<E, M>::HeaderMenu(e));
        assert(all[k] == menus[k]);
    }
    if let Some(e) = layout.context_menu {
        let k = menus.len() - 1;
        assert(menus[k] == Layer::<E, M>::ContextMenu(e));
        assert(all[k] == menus[k]);
    }
    if let Some(d) = layout.dialog {
        let k = 1int;
        assert(modals[k] == Layer::<E, M>::Dialog { dialog: d, card: style.dialog_card });
        assert(all[menus.len() + k] == modals[k]);
    }
    if let Some(sh) = layout.sheet {
        let k = modals.len() - 1;
        assert(modals[k] == Layer::<E, M>::Sheet { sheet: sh, direction: layout.direction });
        assert(all[menus.len() + k] == modals[k]);
    }
    if layout.toasts@.len() > 0 {
        assert(all[(menus.len() + modals.len()) as int] == tp[0]);
    }
}

/// Backdrops follow the close messages: the menu backdrop is drawn
/// exactly when a menu is open and `on_close_menus` is set, and it emits
/// that message; the modal dim is drawn exactly when a modal is open,
/// with or without `on_close_modals`, and emits that message if set.
pub proof fn backdrops_follow_close_messages<E, M>(layout: AppLayout<E, M>, style: ChromeStyle, m: M)
    ensures
        overlay_layers(layout, style).contains(Layer::MenuBackdrop(m)) <==> (has_menu(layout)
            && layout.on_close_menus == Some(m)),
        overlay_layers(layout, style).contains(dim_layer(layout, style)) <==> has_modal(layout),
        forall|i: int|
            0 <= i < overlay_layers(layout, style).len() && (#[trigger] overlay_layers(
                layout,
                style,
            )[i]) is ModalDim ==> overlay_layers(layout, style)[i] == dim_layer(layout, style),
{
    let menus = menu_part(layout.header_menu, layout.context_menu, layout.on_close_menus);
    let modals = modal_part(layout.dialog, layout.sheet, layout.on_close_modals, style, layout.direction);
    let tp = toast_part::<E, M>(layout.toasts, layout.toast_position, layout.direction);
    let all = overlay_layers(layout, style);
    let dim = Layer::<E, M>::ModalDim { on_press: layout.on_close_modals, paint: style.dim };
    assert(all == menus + modals + tp);
    if has_menu(layout) && layout.on_close_menus == Some(m) {
        assert(all[0] == Layer::<E, M>::MenuBackdrop(m));
    }
    if all.contains(Layer::MenuBackdrop(m)) {
        let k = choose|k: int| 0 <= k < all.len() && all[k] == Layer::<E, M>::MenuBackdrop(m);
        if k >= menus.len() {
            if k < menus.len() + modals.len() {
                assert(all[k] == modals[k - menus.len()]);
            } else {
                assert(all[k] == tp[k - menus.len() - modals.len()]);
            }
        }
    }
    if has_modal(layout) {
        assert(all[menus.len() as int] == dim);
    }
    if all.contains(dim) {
        let k = choose|k: int| 0 <= k < all.len() && all[k] == dim;
        if k < menus.len() {
            assert(all[k] == menus[k]);
        } else if k >= menus.len() + modals.len() {
            assert(all[k] == tp[k - menus.len() - modals.len()]);
        } else {
            assert(all[k] == modals[k - menus.len()]);
        }
    }
    assert forall|i: int| 0 <= i < all.len() && (#[trigger] all[i]) is ModalDim implies all[i] == dim by {
        if i < menus.len() {
            assert(all[i] == menus[i]);
        } else if i >= menus.len() + modals.len() {
            assert(all[i] == tp[i - menus.len() - modals.len()]);
        } else {
            assert(all[i] == modals[i - menus.len()]);
        }
    }
}

/// With no menu, no modal and no toast open, the skeleton is the whole
/// stack.
pub proof fn idle_layout_is_only_skeleton<E, M>(layout: AppLayout<E, M>, style: ChromeStyle)
    requires
        !has_menu(layout),
        !has_modal(layout),
        layout.toasts@.len() == 0,
    ensures
        overlay_layers(layout, style).len() == 0,
{
}

/// Every dialog layer is carded exactly when the style asks for it.
pub proof fn dialog_card_follows_style<E, M>(layout: AppLayout<E, M>, style: ChromeStyle)
    ensures
        forall|i: int|
            0 <= i < overlay_layers(layout, style).len() && (#[trigger] overlay_layers(
                layout,
                style,
            )[i]) is Dialog ==> overlay_layers(layout, style)[i]->card == style.dialog_card,
{
    let menus = menu_part(layout.header_menu, layout.context_menu, layout.on_close_menus);
    let modals = modal_part(layout.dialog, layout.sheet, layout.on_close_modals, style, layout.direction);
    let tp = toast_part::<E, M>(layout.toasts, layout.toast_position, layout.direction);
    let all = overlay_layers(layout, style);
    assert(all == menus + modals + tp);
    assert forall|i: int| 0 <= i < all.len() && (#[trigger] all[i]) is Dialog implies all[i]->card
        == style.dialog_card by {
        if i < menus.len() {
            assert(all[i] == menus[i]);
        } else if i >= menus.len() + modals.len() {
            assert(all[i] == tp[i - menus.len() - modals.len()]);
        } else {
            assert(all[i] == modals[i - menus.len()]);
        }
    }
}

/// The two render paths compose the same stack: the same number of
/// layers, of the same kinds, in the same order. Only the dim's paint
/// and the dialog's card differ between styles.
pub proof fn render_paths_share_composition<E, M>(layout: AppLayout<E, M>, a: ChromeStyle, b: ChromeStyle)
    ensures
        overlay_layers(layout, a).len() == overlay_layers(layout, b).len(),
        forall|i: int|
            0 <= i < overlay_layers(layout, a).len() ==> rank(#[trigger] overlay_layers(layout, a)[i])
                == rank(overlay_layers(layout, b)[i]),
{
    let menus = menu_part(layout.header_menu, layout.context_menu, layout.on_close_menus);
    let ma = modal_part(layout.dialog, layout.sheet, layout.on_close_modals, a, layout.direction);
    let mb = modal_part(layout.dialog, layout.sheet, layout.on_close_modals, b, layout.direction);
    let tp = toast_part::<E, M>(layout.toasts, layout.toast_position, layout.direction);
    let all_a = overlay_layers(layout, a);
    let all_b = overlay_layers(layout, b);
    assert(all_a == menus + ma + tp);
    assert(all_b == menus + mb + tp);
    assert(ma.len() == mb.len());
    assert forall|i: int| 0 <= i < ma.len() implies rank(#[trigger] ma[i]) == rank(mb[i]) by {}
    assert forall|i: int| 0 <= i < all_a.len() implies rank(#[trigger] all_a[i]) == rank(all_b[i]) by {
        if i < menus.len() {
            assert(all_a[i] == menus[i]);
            assert(all_b[i] == menus[i]);
        } else if i >= menus.len() + ma.len() {
            assert(all_a[i] == tp[i - menus.len() - ma.len()]);
            assert(all_b[i] == tp[i - menus.len() - mb.len()]);
        } else {
            assert(all_a[i] == ma[i - menus.len()]);
            assert(all_b[i] == mb[i - menus.len()]);
        }
    }
}

} // verus!
