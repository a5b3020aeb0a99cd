//! Which stable identifier each composed layer carries. Only surfaces
//! the engine draws itself are labelled; application content inside a
//! slot stays the application's to name.

use vstd::prelude::*;
use crate::identifiers::{
    BODY_REGION, DIALOG, DIALOG_CARD, FOOTER_REGION, HEADER_REGION, MENU_BACKDROP, MODAL_DIM,
    SHEET_PANEL, SIDEBAR_REGION, TOAST_STACK, toast_id, toast_identifier,
};
use crate::reference_page::strings_view;
use crate::render::{
    ChromeStyle, Layer, Region, Skeleton, backdrops_follow_close_messages, dialog_card_follows_style,
    dim_layer, has_menu, has_modal, is_composition_of, menu_part, modal_part, overlay_layers,
    overlays_are_never_dropped, spec_body_row, toast_layer, toast_part,
};
use crate::layout::AppLayout;
use crate::identifiers::{all_static_names, static_names_are_distinct_and_prefixed};
use crate::direction::LayoutDirection;
use crate::toast::Toast;

verus! {

/// The identifier of a middle-row region.
pub open spec fn region_id<E>(region: Region<E>) -> Seq<char> {
    match region {
        Region::SideBar(_) => SIDEBAR_REGION@,
        Region::Body(_) => BODY_REGION@,
    }
}

/// The identifiers of a row's regions, in order.
pub open spec fn row_ids<E>(row: Seq<Region<E>>) -> Seq<Seq<char>> {
    row.map_values(|r: Region<E>| region_id(r))
}

/// The identifiers a skeleton carries: its header region if any, its
/// row's regions, its footer region if any.
pub open spec fn skeleton_ids<E>(skeleton: Skeleton<E>) -> Seq<Seq<char>> {
    (if skeleton.header is Some { seq![HEADER_REGION@] } else { Seq::empty() })
        + row_ids(skeleton.row@)
        + (if skeleton.footer is Some { seq![FOOTER_REGION@] } else { Seq::empty() })
}

/// The per-toast identifiers of a queue, in queue order.
pub open spec fn queue_ids<M>(queue: Seq<Toast<M>>) -> Seq<Seq<char>> {
    queue.map_values(|t: Toast<M>| toast_identifier(t.id as nat))
}

/// The identifiers a layer carries.
pub open spec fn layer_ids<E, M>(layer: Layer<E, M>) -> Seq<Seq<char>> {
    match layer {
        Layer::Skeleton(s) => skeleton_ids(s),
        Layer::MenuBackdrop(_) => seq![MENU_BACKDROP@],
        Layer::HeaderMenu(_) => Seq::empty(),
        Layer::ContextMenu(_) => Seq::empty(),
        Layer::ModalDim { .. } => seq![MODAL_DIM@],
        Layer::Dialog { card, .. } => if card { seq![DIALOG@, DIALOG_CARD@] } else { seq![DIALOG@] },
        Layer::Sheet { .. } => seq![SHEET_PANEL@],
        Layer::Toasts { queue, .. } => seq![TOAST_STACK@] + queue_ids(queue@),
    }
}

/// The identifiers a stack carries, bottom layer first.
pub open spec fn stack_ids<E, M>(layers: Seq<Layer<E, M>>) -> Seq<Seq<char>>
    decreases layers.len(),
{
    if layers.len() == 0 {
        Seq::empty()
    } else {
        stack_ids(layers.drop_last()) + layer_ids(layers.last())
    }
}

fn push_name(names: &mut Vec<String>, name: &str)
    ensures
        strings_view(final(names)@) == strings_view(old(names)@).push(name@),
{
    names.push(String::from_str(name));
    assert(strings_view(names@) =~= strings_view(old(names)@).push(name@));
}

fn push_skeleton_ids<E>(names: &mut Vec<String>, skeleton: &Skeleton<E>)
    ensures
        strings_view(final(names)@) == strings_view(old(names)@) + skeleton_ids(*skeleton),
{
    let ghost start = strings_view(names@);
    if skeleton.header.is_some() {
        push_name(names, HEADER_REGION);
    }
    let ghost after_header = strings_view(names@);
    let mut i: usize = 0;
    while i < skeleton.row.len()
        invariant
            i <= skeleton.row@.len(),
            strings_view(names@) == after_header + row_ids(skeleton.row@.take(i as int)),
        decreases skeleton.row@.len() - i,
    {
        proof {
            assert(row_ids(skeleton.row@.take(i + 1)) =~= row_ids(skeleton.row@.take(i as int)).push(
                region_id(skeleton.row@[i as int]),
            ));
        }
        match &skeleton.row[i] {
            Region::SideBar(_) => push_name(names, SIDEBAR_REGION),
            Region::Body(_) => push_name(names, BODY_REGION),
        }
        proof {
            assert(strings_view(names@) =~= after_header + row_ids(skeleton.row@.take(i + 1)));
        }
        i = i + 1;
    }
    assert(skeleton.row@.take(i as int) =~= skeleton.row@);
    if skeleton.footer.is_some() {
        push_name(names, FOOTER_REGION);
    }
    assert(strings_view(names@) =~= start + skeleton_ids(*skeleton));
}

fn push_queue_ids<M>(names: &mut Vec<String>, queue: &Vec<Toast<M>>)
    ensures
        strings_view(final(names)@) == strings_view(old(names)@) + queue_ids(queue@),
{
    let ghost start = strings_view(names@);
    let mut i: usize = 0;
    while i < queue.len()
        invariant
            i <= queue@.len(),
            strings_view(names@) == start + queue_ids(queue@.take(i as int)),
        decreases queue@.len() - i,
    {
        let id = toast_id(queue[i].id);
        let ghost v = id@;
        let ghost prior = names@;
        names.push(id);
        proof {
            assert(strings_view(names@) =~= strings_view(prior).push(v));
            assert(queue_ids(queue@.take(i + 1)) =~= queue_ids(queue@.take(i as int)).push(v));
            assert(strings_view(names@) =~= start + queue_ids(queue@.take(i + 1)));
        }
        i = i + 1;
    }
    assert(queue@.take(i as int) =~= queue@);
}

/// Every identifier the stack carries, bottom layer first: the skeleton's
/// regions, the menu backdrop, the modal dim, the dialog (and its card
/// on the design path), the sheet panel, the toast stack and one
/// identifier per toast.
pub fn emitted_identifiers<E, M>(layers: &Vec<Layer<E, M>>) -> (names: Vec<String>)
    ensures
        strings_view(names@) == stack_ids(layers@),
{
    let mut names: Vec<String> = Vec::new();
    let mut i: usize = 0;
    assert(strings_view(names@) =~= stack_ids(layers@.take(0)));
    while i < layers.len()
        invariant
            i <= layers@.len(),
            strings_view(names@) == stack_ids(layers@.take(i as int)),
        decreases layers@.len() - i,
    {
        let ghost before = strings_view(names@);
        match &layers[i] {
            Layer::Skeleton(s) => push_skeleton_ids(&mut names, s),
            Layer::MenuBackdrop(_) => push_name(&mut names, MENU_BACKDROP),
            Layer::HeaderMenu(_) => {},
            Layer::ContextMenu(_) => {},
            Layer::ModalDim { .. } => push_name(&mut names, MODAL_DIM),
            Layer::Dialog { card, .. } => {
                push_name(&mut names, DIALOG);
                if *card {
                    push_name(&mut names, DIALOG_CARD);
                }
            },
            Layer::Sheet { .. } => push_name(&mut names, SHEET_PANEL),
            Layer::Toasts { queue, .. } => {
                push_name(&mut names, TOAST_STACK);
                push_queue_ids(&mut names, queue);
            },
        }
        proof {
            assert(layers@.take(i + 1).drop_last() =~= layers@.take(i as int));
            assert(strings_view(names@) =~= before + layer_ids(layers@[i as int]));
        }
        i = i + 1;
    }
    assert(layers@.take(i as int) =~= layers@);
    names
}

/// Anything a layer of the stack carries, the stack carries.
proof fn stack_ids_include<E, M>(layers: Seq<Layer<E, M>>, i: int, name: Seq<char>)
    requires
        0 <= i < layers.len(),
        layer_ids(layers[i]).contains(name),
    ensures
        stack_ids(layers).contains(name),
    decreases layers.len(),
{
    let rest = layers.drop_last();
    if i == layers.len() - 1 {
        let k = choose|k: int| 0 <= k < layer_ids(layers[i]).len() && layer_ids(layers[i])[k] == name;
        assert(stack_ids(layers)[stack_ids(rest).len() + k] == name);
    } else {
        assert(rest[i] == layers[i]);
        stack_ids_include(rest, i, name);
        let k = choose|k: int| 0 <= k < stack_ids(rest).len() && stack_ids(rest)[k] == name;
        assert(stack_ids(layers)[k] == name);
    }
}

/// What no layer carries, the stack does not carry.
proof fn stack_ids_exclude<E, M>(layers: Seq<Layer<E, M>>, name: Seq<char>)
    requires
        forall|i: int| 0 <= i < layers.len() ==> !(#[trigger] layer_ids(layers[i])).contains(name),
    ensures
        !stack_ids(layers).contains(name),
    decreases layers.len(),
{
    if layers.len() > 0 {
        let rest = layers.drop_last();
        assert forall|i: int| 0 <= i < rest.len() implies !(#[trigger] layer_ids(rest[i])).contains(name) by {
            assert(rest[i] == layers[i]);
        }
        stack_ids_exclude(rest, name);
        let last = layer_ids(layers.last());
        assert(!last.contains(name));
        if stack_ids(layers).contains(name) {
            let k = choose|k: int| 0 <= k < stack_ids(layers).len() && stack_ids(layers)[k] == name;
            if k < stack_ids(rest).len() {
                assert(stack_ids(rest)[k] == name);
            } else {
                assert(last[k - stack_ids(rest).len()] == name);
            }
        }
    }
}

proof fn overlay_layer_in_stack<E, M>(
    layers: Seq<Layer<E, M>>,
    layout: AppLayout<E, M>,
    style: ChromeStyle,
    layer: Layer<E, M>,
    name: Seq<char>,
)
    requires
        is_composition_of(layers, layout, style),
        overlay_layers(layout, style).contains(layer),
        layer_ids(layer).contains(name),
    ensures
        stack_ids(layers).contains(name),
{
    let k = choose|k: int| 0 <= k < overlay_layers(layout, style).len() && overlay_layers(layout, style)[k] == layer;
    assert(layers[k + 1] == layers.drop_first()[k]);
    stack_ids_include(layers, k + 1, name);
}

proof fn skeleton_regions_in_stack<E, M>(
    layers: Seq<Layer<E, M>>,
    layout: AppLayout<E, M>,
    style: ChromeStyle,
)
    requires
        is_composition_of(layers, layout, style),
    ensures
        stack_ids(layers).contains(BODY_REGION@),
        layout.header is Some ==> stack_ids(layers).contains(HEADER_REGION@),
        layout.side_bar is Some ==> stack_ids(layers).contains(SIDEBAR_REGION@),
        layout.footer is Some ==> stack_ids(layers).contains(FOOTER_REGION@),
{
    let skeleton = layers[0]->Skeleton_0;
    let sk_ids = skeleton_ids(skeleton);
    let row = skeleton.row@;
    let h = if skeleton.header is Some { seq![HEADER_REGION@] } else { Seq::<Seq<char>>::empty() };
    assert(sk_ids == h + row_ids(row) + (if skeleton.footer is Some { seq![FOOTER_REGION@] } else { Seq::<Seq<char>>::empty() }));
    let body_at: int = match layout.side_bar {
        Some(_) => if layout.direction == LayoutDirection::Ltr { 1 } else { 0 },
        None => 0,
    };
    assert(row[body_at] is Body);
    assert(row_ids(row)[body_at] == BODY_REGION@);
    assert(sk_ids[h.len() + body_at] == BODY_REGION@);
    stack_ids_include(layers, 0, BODY_REGION@);
    if layout.side_bar is Some {
        let side_at: int = 1 - body_at;
        assert(row[side_at] is SideBar);
        assert(sk_ids[h.len() + side_at] == SIDEBAR_REGION@);
        stack_ids_include(layers, 0, SIDEBAR_REGION@);
    }
    if layout.header is Some {
        assert(sk_ids[0] == HEADER_REGION@);
        stack_ids_include(layers, 0, HEADER_REGION@);
    }
    if layout.footer is Some {
        assert(sk_ids[sk_ids.len() - 1] == FOOTER_REGION@);
        stack_ids_include(layers, 0, FOOTER_REGION@);
    }
}

proof fn overlays_in_stack<E, M>(
    layers: Seq<Layer<E, M>>,
    layout: AppLayout<E, M>,
    style: ChromeStyle,
)
    requires
        is_composition_of(layers, layout, style),
    ensures
        has_menu(layout) && layout.on_close_menus is Some ==> stack_ids(layers).contains(MENU_BACKDROP@),
        has_modal(layout) ==> stack_ids(layers).contains(MODAL_DIM@),
        layout.dialog is Some ==> stack_ids(layers).contains(DIALOG@),
        layout.dialog is Some && style.dialog_card ==> stack_ids(layers).contains(DIALOG_CARD@),
        layout.sheet is Some ==> stack_ids(layers).contains(SHEET_PANEL@),
        layout.toasts@.len() > 0 ==> stack_ids(layers).contains(TOAST_STACK@),
        forall|i: int|
            0 <= i < layout.toasts@.len() ==> stack_ids(layers).contains(
                toast_identifier(#[trigger] layout.toasts@[i].id as nat),
            ),
{
    overlays_are_never_dropped(layout, style);
    if has_menu(layout) && layout.on_close_menus is Some {
        let m = layout.on_close_menus->0;
        backdrops_follow_close_messages(layout, style, m);
        assert(layer_ids(Layer::<E, M>::MenuBackdrop(m))[0] == MENU_BACKDROP@);
        overlay_layer_in_stack(layers, layout, style, Layer::MenuBackdrop(m), MENU_BACKDROP@);
    }
    if has_modal(layout) {
        let any_m = arbitrary::<M>();
        backdrops_follow_close_messages(layout, style, any_m);
        assert(layer_ids(dim_layer(layout, style))[0] == MODAL_DIM@);
        overlay_layer_in_stack(layers, layout, style, dim_layer(layout, style), MODAL_DIM@);
    }
    if let Some(d) = layout.dialog {
        let l = Layer::<E, M>::Dialog { dialog: d, card: style.dialog_card };
        assert(layer_ids(l)[0] == DIALOG@);
        overlay_layer_in_stack(layers, layout, style, l, DIALOG@);
        if style.dialog_card {
            assert(layer_ids(l)[1] == DIALOG_CARD@);
            overlay_layer_in_stack(layers, layout, style, l, DIALOG_CARD@);
        }
    }
    if let Some(sh) = layout.sheet {
        let l = Layer::<E, M>::Sheet { sheet: sh, direction: layout.direction };
        assert(layer_ids(l)[0] == SHEET_PANEL@);
        overlay_layer_in_stack(layers, layout, style, l, SHEET_PANEL@);
    }
    if layout.toasts@.len() > 0 {
        let l = toast_layer(layout);
        assert(layer_ids(l)[0] == TOAST_STACK@);
        overlay_layer_in_stack(layers, layout, style, l, TOAST_STACK@);
        assert forall|i: int| 0 <= i < layout.toasts@.len() implies stack_ids(layers).contains(
            toast_identifier(#[trigger] layout.toasts@[i].id as nat),
        ) by {
            assert(layer_ids(l)[1 + i] == toast_identifier(layout.toasts@[i].id as nat));
            overlay_layer_in_stack(layers, layout, style, l, toast_identifier(layout.toasts@[i].id as nat));
        }
    }
}

/// The static identifiers, position by position.
proof fn static_names_in_order()
    ensures
        all_static_names()[0] == MENU_BACKDROP@,
        all_static_names()[1] == MODAL_DIM@,
        all_static_names()[2] == DIALOG@,
        all_static_names()[3] == SHEET_PANEL@,
        all_static_names()[4] == TOAST_STACK@,
        all_static_names()[5] == HEADER_REGION@,
        all_static_names()[6] == SIDEBAR_REGION@,
        all_static_names()[7] == BODY_REGION@,
        all_static_names()[8] == FOOTER_REGION@,
        all_static_names()[9] == DIALOG_CARD@,
{
}

proof fn no_dialog_card_off_the_design_path<E, M>(
    layers: Seq<Layer<E, M>>,
    layout: AppLayout<E, M>,
    style: ChromeStyle,
)
    requires
        is_composition_of(layers, layout, style),
        !style.dialog_card,
    ensures
        !stack_ids(layers).contains(DIALOG_CARD@),
{
    dialog_card_follows_style(layout, style);
    static_names_are_distinct_and_prefixed(0);
    let names = all_static_names();
    static_names_in_order();
    assert(names[0] != names[9] && names[1] != names[9] && names[2] != names[9]);
    assert(names[3] != names[9] && names[4] != names[9] && names[5] != names[9]);
    assert(names[6] != names[9] && names[7] != names[9] && names[8] != names[9]);
    let skeleton = layers[0]->Skeleton_0;
    let row = skeleton.row@;
    assert forall|i: int| 0 <= i < layers.len() implies !(#[trigger] layer_ids(layers[i])).contains(
        DIALOG_CARD@,
    ) by {
        let ids = layer_ids(layers[i]);
        if ids.contains(DIALOG_CARD@) {
            let k = choose|k: int| 0 <= k < ids.len() && ids[k] == DIALOG_CARD@;
            if i == 0 {
                let hh = if skeleton.header is Some { seq![HEADER_REGION@] } else { Seq::<Seq<char>>::empty() };
                if k < hh.len() {
                } else if k < hh.len() + row.len() {
                    assert(row_ids(row)[k - hh.len()] == region_id(row[k - hh.len()]));
                }
            } else {
                assert(layers[i] == overlay_layers(layout, style)[i - 1]);
                match layers[i] {
                    Layer::Toasts { queue, .. } => {
                        if k >= 1 {
                            let t = queue@[k - 1];
                            static_names_are_distinct_and_prefixed(t.id as nat);
                            assert(all_static_names()[9] != toast_identifier(t.id as nat));
                        }
                    },
                    _ => {},
                }
            }
        }
    }
    stack_ids_exclude(layers, DIALOG_CARD@);
}

/// Every surface the engine draws carries its documented identifier in
/// the composed stack: the body region always, the header, sidebar and
/// footer regions when present, the menu backdrop when drawn, the modal
/// dim whenever a modal is open (with or without a close message), the
/// dialog, the sheet panel, the toast stack and each toast. The dialog
/// card's identifier appears on the design path only.
pub proof fn every_drawn_surface_carries_its_identifier<E, M>(
    layers: Seq<Layer<E, M>>,
    layout: AppLayout<E, M>,
    style: ChromeStyle,
)
    requires
        is_composition_of(layers, layout, style),
    ensures
        stack_ids(layers).contains(BODY_REGION@),
        layout.header is Some ==> stack_ids(layers).contains(HEADER_REGION@),
        layout.side_bar is Some ==> stack_ids(layers).contains(SIDEBAR_REGION@),
        layout.footer is Some ==> stack_ids(layers).contains(FOOTER_REGION@),
        has_menu(layout) && layout.on_close_menus is Some ==> stack_ids(layers).contains(MENU_BACKDROP@),
        has_modal(layout) ==> stack_ids(layers).contains(MODAL_DIM@),
        layout.dialog is Some ==> stack_ids(layers).contains(DIALOG@),
        layout.dialog is Some && style.dialog_card ==> stack_ids(layers).contains(DIALOG_CARD@),
        layout.sheet is Some ==> stack_ids(layers).contains(SHEET_PANEL@),
        layout.toasts@.len() > 0 ==> stack_ids(layers).contains(TOAST_STACK@),
        forall|i: int|
            0 <= i < layout.toasts@.len() ==> stack_ids(layers).contains(
                toast_identifier(#[trigger] layout.toasts@[i].id as nat),
            ),
        !style.dialog_card ==> !stack_ids(layers).contains(DIALOG_CARD@),
{
    skeleton_regions_in_stack(layers, layout, style);
    overlays_in_stack(layers, layout, style);
    if !style.dialog_card {
        no_dialog_card_off_the_design_path(layers, layout, style);
    }
}


/// Whether `name` is a documented identifier for a stack showing
/// `toasts`: one of the static identifiers, or the identifier of one of
/// those toasts.
pub open spec fn is_documented<M>(name: Seq<char>, toasts: Seq<Toast<M>>) -> bool {
    ||| all_static_names().contains(name)
    ||| exists|i: int| 0 <= i < toasts.len() && name == toast_identifier(#[trigger] toasts[i].id as nat)
}

/// Whatever the stack carries, some layer of it carries.
proof fn stack_ids_come_from_layers<E, M>(layers: Seq<Layer<E, M>>, name: Seq<char>)
    requires
        stack_ids(layers).contains(name),
    ensures
        exists|j: int| 0 <= j < layers.len() && #[trigger] layer_ids(layers[j]).contains(name),
    decreases layers.len(),
{
    let rest = layers.drop_last();
    let all = stack_ids(layers);
    let k = choose|k: int| 0 <= k < all.len() && all[k] == name;
    if k < stack_ids(rest).len() {
        assert(stack_ids(rest)[k] == name);
        stack_ids_come_from_layers(rest, name);
        let j = choose|j: int| 0 <= j < rest.len() && #[trigger] layer_ids(rest[j]).contains(name);
        assert(rest[j] == layers[j]);
    } else {
        let last = layer_ids(layers.last());
        assert(last[k - stack_ids(rest).len()] == name);
        assert(layer_ids(layers[layers.len() - 1]).contains(name));
    }
}

/// The only toast layer a stack holds is the one showing the layout's
/// own queue.
proof fn toast_layers_show_the_queue<E, M>(layout: AppLayout<E, M>, style: ChromeStyle, i: int)
    requires
        0 <= i < overlay_layers(layout, style).len(),
        overlay_layers(layout, style)[i] is Toasts,
    ensures
        overlay_layers(layout, style)[i] == toast_layer(layout),
{
    let menus = menu_part(layout.header_menu, layout.context_menu, layout.on_close_menus);
    let modals = modal_part(layout.dialog, layout.sheet, layout.on_close_modals, style, layout.direction);
    let tp = toast_part::<E, M>(layout.toasts, layout.toast_position, layout.direction);
    let all = overlay_layers(layout, style);
    assert(all == menus + modals + tp);
    if i < menus.len() {
        assert(all[i] == menus[i]);
    } else if i < menus.len() + modals.len() {
        assert(all[i] == modals[i - menus.len()]);
    } else {
        assert(all[i] == tp[i - menus.len() - modals.len()]);
    }
}

proof fn static_name_at(k: int)
    requires
        0 <= k < 10,
    ensures
        all_static_names().contains(all_static_names()[k]),
{
}

/// Nothing the engine emits is undocumented: every identifier in the
/// composed stack is one of the static identifiers or the identifier of
/// a toast in the layout's queue.
pub proof fn every_emitted_identifier_is_documented<E, M>(
    layers: Seq<Layer<E, M>>,
    layout: AppLayout<E, M>,
    style: ChromeStyle,
)
    requires
        is_composition_of(layers, layout, style),
    ensures
        forall|name: Seq<char>| #[trigger] stack_ids(layers).contains(name) ==> is_documented(name, layout.toasts@),
{
    let names = all_static_names();
    static_names_in_order();
    assert forall|name: Seq<char>| #[trigger] stack_ids(layers).contains(name) implies is_documented(
        name,
        layout.toasts@,
    ) by {
        stack_ids_come_from_layers(layers, name);
        let j = choose|j: int| 0 <= j < layers.len() && #[trigger] layer_ids(layers[j]).contains(name);
        let ids = layer_ids(layers[j]);
        let k = choose|k: int| 0 <= k < ids.len() && ids[k] == name;
        if j == 0 {
            let skeleton = layers[0]->Skeleton_0;
            let row = skeleton.row@;
            let h = if skeleton.header is Some { seq![HEADER_REGION@] } else { Seq::<Seq<char>>::empty() };
            let f = if skeleton.footer is Some { seq![FOOTER_REGION@] } else { Seq::<Seq<char>>::empty() };
            assert(ids == h + row_ids(row) + f);
            if k < h.len() {
                static_name_at(5);
            } else if k < h.len() + row.len() {
                assert(row_ids(row)[k - h.len()] == region_id(row[k - h.len()]));
                static_name_at(6);
                static_name_at(7);
            } else {
                static_name_at(8);
            }
        } else {
            assert(layers[j] == overlay_layers(layout, style)[j - 1]);
            match layers[j] {
                Layer::Skeleton(_) => {},
                Layer::MenuBackdrop(_) => static_name_at(0),
                Layer::HeaderMenu(_) => {},
                Layer::ContextMenu(_) => {},
                Layer::ModalDim { .. } => static_name_at(1),
                Layer::Dialog { .. } => {
                    static_name_at(2);
                    static_name_at(9);
                },
                Layer::Sheet { .. } => static_name_at(3),
                Layer::Toasts { queue, .. } => {
                    toast_layers_show_the_queue(layout, style, j - 1);
                    if k == 0 {
                        static_name_at(4);
                    } else {
                        assert(queue@ == layout.toasts@);
                        let t = queue@[k - 1];
                        assert(ids[k] == toast_identifier(t.id as nat));
                        assert(layout.toasts@[k - 1] == t);
                    }
                },
            }
        }
    }
}

} // verus!
