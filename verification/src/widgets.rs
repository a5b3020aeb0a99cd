//! Direction-aware arrangement of the prefab chrome widgets: breadcrumb
//! trails, tab rows, header groups and sidebar tooltips.

use vstd::prelude::*;
use crate::direction::{LayoutDirection, physical_order, in_physical_order};
use crate::toast::{Horizontal, end_side};

verus! {

/// The separator drawn between two crumbs: it points along the reading
/// direction.
pub open spec fn spec_separator(direction: LayoutDirection) -> char {
    match direction {
        LayoutDirection::Ltr => '›',
        LayoutDirection::Rtl => '‹',
    }
}

/// The separator glyph between crumbs under `direction`.
pub fn separator(direction: LayoutDirection) -> (glyph: char)
    ensures
        glyph == spec_separator(direction),
{
    match direction {
        LayoutDirection::Ltr => '›',
        LayoutDirection::Rtl => '‹',
    }
}

/// One element of a breadcrumb trail.
pub enum TrailItem<C> {
    Crumb(C),
    Separator(char),
}

/// `items` with `sep` between each consecutive pair.
pub open spec fn interleave<C>(items: Seq<C>, sep: char) -> Seq<TrailItem<C>>
    decreases items.len(),
{
    if items.len() == 0 {
        Seq::empty()
    } else if items.len() == 1 {
        seq![TrailItem::Crumb(items[0])]
    } else {
        interleave(items.drop_last(), sep) + seq![TrailItem::Separator(sep), TrailItem::Crumb(items.last())]
    }
}

/// The trail for `crumbs`, given root first: placed in physical order,
/// with a separator between each consecutive pair.
pub open spec fn spec_trail<C>(crumbs: Seq<C>, direction: LayoutDirection) -> Seq<TrailItem<C>> {
    interleave(physical_order(direction, crumbs), spec_separator(direction))
}

/// Lays out a breadcrumb trail: crumbs (root first) in physical order,
/// each consecutive pair separated by the direction's separator glyph.
pub fn breadcrumb_trail<C>(crumbs: Vec<C>, direction: LayoutDirection) -> (trail: Vec<TrailItem<C>>)
    ensures
        trail@ == spec_trail(crumbs@, direction),
{
    let sep = separator(direction);
    let placed = in_physical_order(direction, crumbs);
    let ghost items = placed@;
    assert(items.len() == placed.len());
    let mut trail: Vec<TrailItem<C>> = Vec::new();
    let mut rest = placed;
    let mut reversed: Vec<C> = Vec::new();
    while rest.len() > 0
        invariant
            rest@ == items.take(rest@.len() as int),
            reversed@.len() + rest@.len() == items.len(),
            forall|i: int| 0 <= i < reversed@.len() ==> #[trigger] reversed@[i] == items[items.len() - 1 - i],
        decreases rest@.len(),
    {
        let c = rest.pop().unwrap();
        reversed.push(c);
    }
    let mut done: usize = 0;
    while reversed.len() > 0
        invariant
            reversed@.len() + done == items.len(),
            items.len() <= usize::MAX,
            forall|i: int| 0 <= i < reversed@.len() ==> #[trigger] reversed@[i] == items[items.len() - 1 - i],
            trail@ == interleave(items.take(done as int), sep),
        decreases reversed@.len(),
    {
        let c = reversed.pop().unwrap();
        proof {
            assert(c == items[done as int]);
            assert(items.take(done + 1).drop_last() =~= items.take(done as int));
            assert(items.take(done + 1).last() == items[done as int]);
        }
        if done > 0 {
            trail.push(TrailItem::Separator(sep));
        }
        trail.push(TrailItem::Crumb(c));
        proof {
            if done == 0 {
                assert(trail@ =~= interleave(items.take(1), sep));
            } else {
                assert(trail@ =~= interleave(items.take(done + 1), sep));
            }
        }
        done = done + 1;
    }
    assert(items.take(done as int) =~= items);
    trail
}

/// A trail of `n` crumbs has `2n - 1` items: crumbs at even positions in
/// physical order, separators at odd positions.
pub proof fn trail_alternates<C>(items: Seq<C>, sep: char)
    requires
        items.len() > 0,
    ensures
        interleave(items, sep).len() == 2 * items.len() - 1,
        forall|i: int|
            0 <= i < items.len() ==> interleave(items, sep)[2 * i] == TrailItem::Crumb(
                #[trigger] items[i],
            ),
        forall|i: int|
            0 <= i < items.len() - 1 ==> #[trigger] interleave(items, sep)[2 * i + 1]
                == TrailItem::<C>::Separator(sep),
    decreases items.len(),
{
    if items.len() > 1 {
        let rest = items.drop_last();
        trail_alternates(rest, sep);
        let t = interleave(items, sep);
        let r = interleave(rest, sep);
        assert(t == r + seq![TrailItem::Separator(sep), TrailItem::Crumb(items.last())]);
        assert forall|i: int| 0 <= i < items.len() implies t[2 * i] == TrailItem::Crumb(
            #[trigger] items[i],
        ) by {
            if i < rest.len() {
                assert(rest[i] == items[i]);
                assert(t[2 * i] == r[2 * i]);
            }
        }
        assert forall|i: int| 0 <= i < items.len() - 1 implies #[trigger] t[2 * i + 1]
            == TrailItem::<C>::Separator(sep) by {
            if i < rest.len() - 1 {
                assert(t[2 * i + 1] == r[2 * i + 1]);
            }
        }
    }
}

/// The side of the sidebar rail its tooltips open on: the logical end,
/// so they never cover the rail and open toward the content.
pub fn tooltip_side(direction: LayoutDirection) -> (side: Horizontal)
    ensures
        side == end_side(direction),
{
    match direction {
        LayoutDirection::Ltr => Horizontal::Right,
        LayoutDirection::Rtl => Horizontal::Left,
    }
}


/// One step of a breadcrumb trail.
pub struct Crumb<Id> {
    pub id: Id,
    pub label: String,
    /// The current page: drawn as plain text, not pressable.
    pub is_leaf: bool,
}

/// What pressing a crumb reports.
#[derive(Debug, Clone, PartialEq, Eq)]
pub enum BreadcrumbAction<Id> {
    Pressed(Id),
}

/// An element of a drawn breadcrumb trail.
pub enum CrumbItem<Id> {
    /// The leaf crumb's label, as plain text.
    Text(String),
    /// An ancestor crumb: a button labelled `label` that reports `action`.
    Button { label: String, action: BreadcrumbAction<Id> },
    /// A separator glyph.
    Separator(char),
}

/// How a trail element is drawn: the leaf as text, every other crumb as
/// a button reporting its own id, separators as they are.
pub open spec fn crumb_item<Id>(item: TrailItem<Crumb<Id>>) -> CrumbItem<Id> {
    match item {
        TrailItem::Crumb(c) => if c.is_leaf {
            CrumbItem::Text(c.label)
        } else {
            CrumbItem::Button { label: c.label, action: BreadcrumbAction::Pressed(c.id) }
        },
        TrailItem::Separator(glyph) => CrumbItem::Separator(glyph),
    }
}

/// The drawn trail of `crumbs`.
pub open spec fn spec_breadcrumb_items<Id>(crumbs: Seq<Crumb<Id>>, direction: LayoutDirection) -> Seq<CrumbItem<Id>> {
    spec_trail(crumbs, direction).map_values(|item: TrailItem<Crumb<Id>>| crumb_item(item))
}

fn draw_item<Id>(item: TrailItem<Crumb<Id>>) -> (drawn: CrumbItem<Id>)
    ensures
        drawn == crumb_item(item),
{
    match item {
        TrailItem::Crumb(c) => {
            let Crumb { id, label, is_leaf } = c;
            if is_leaf {
                CrumbItem::Text(label)
            } else {
                CrumbItem::Button { label, action: BreadcrumbAction::Pressed(id) }
            }
        },
        TrailItem::Separator(glyph) => CrumbItem::Separator(glyph),
    }
}

/// The breadcrumb trail as it is drawn: the crumbs in reading order with
/// a separator between each adjacent pair (see [`breadcrumb_trail`]),
/// the leaf crumbs as plain text and every other crumb as a button that
/// reports `Pressed` with that crumb's id.
pub fn breadcrumb_items<Id>(crumbs: Vec<Crumb<Id>>, direction: LayoutDirection) -> (items: Vec<CrumbItem<Id>>)
    ensures
        items@ == spec_breadcrumb_items(crumbs@, direction),
{
    let trail = breadcrumb_trail(crumbs, direction);
    let ghost t = trail@;
    let mut rest = in_physical_order(LayoutDirection::Rtl, trail);
    let mut items: Vec<CrumbItem<Id>> = Vec::new();
    while rest.len() > 0
        invariant
            items@.len() + rest@.len() == t.len(),
            forall|j: int| 0 <= j < items@.len() ==> #[trigger] items@[j] == crumb_item(t[j]),
            forall|j: int| 0 <= j < rest@.len() ==> #[trigger] rest@[j] == t[t.len() - 1 - j],
        decreases rest@.len(),
    {
        let ghost k = items@.len();
        let item = rest.pop().unwrap();
        assert(item == t[k as int]);
        items.push(draw_item(item));
    }
    assert(items@ =~= spec_breadcrumb_items(crumbs@, direction));
    items
}

} // verus!
