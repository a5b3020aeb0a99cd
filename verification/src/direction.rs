//! Logical start/end ordering.
//!
//! Layouts are written in terms of a logical start and end; the reading
//! direction decides which of them lands on the physical left.

use vstd::prelude::*;

verus! {

/// The application's reading direction.
#[derive(Debug, Clone, Copy, PartialEq, Eq, Structural)]
pub enum LayoutDirection {
    /// Left to right: logical start is the physical left.
    Ltr,
    /// Right to left: logical start is the physical right.
    Rtl,
}

/// Items listed in logical order, as they land from physical left to right.
pub open spec fn physical_order<T>(direction: LayoutDirection, items: Seq<T>) -> Seq<T> {
    match direction {
        LayoutDirection::Ltr => items,
        LayoutDirection::Rtl => items.reverse(),
    }
}

/// Puts `items`, given in logical order (start first), into physical
/// left-to-right order: unchanged under LTR, reversed under RTL.
pub fn in_physical_order<T>(direction: LayoutDirection, items: Vec<T>) -> (placed: Vec<T>)
    ensures
        placed@ == physical_order(direction, items@),
{
    match direction {
        LayoutDirection::Ltr => items,
        LayoutDirection::Rtl => reversed(items),
    }
}

fn reversed<T>(items: Vec<T>) -> (out: Vec<T>)
    ensures
        out@ == items@.reverse(),
{
    let ghost initial = items@;
    let mut rest = items;
    let mut out: Vec<T> = Vec::new();
    while rest.len() > 0
        invariant
            rest@ == initial.take(rest@.len() as int),
            out@.len() + rest@.len() == initial.len(),
            forall|i: int|
                0 <= i < out@.len() ==> #[trigger] out@[i] == initial[initial.len() - 1 - i],
        decreases rest@.len(),
    {
        let item = rest.pop().unwrap();
        out.push(item);
    }
    assert(out@ =~= initial.reverse());
    out
}

/// A two-slot row in logical order: `start` first under LTR, `end`
/// first under RTL.
pub fn row_dir<T>(direction: LayoutDirection, start: T, end: T) -> (row: Vec<T>)
    ensures
        row@ == physical_order(direction, seq![start, end]),
{
    let mut row: Vec<T> = Vec::new();
    match direction {
        LayoutDirection::Ltr => {
            row.push(start);
            row.push(end);
        },
        LayoutDirection::Rtl => {
            row.push(end);
            row.push(start);
        },
    }
    assert(row@ =~= physical_order(direction, seq![start, end]));
    row
}

/// A three-slot row in logical order. `center` keeps the middle under
/// both directions; only `start` and `end` swap.
pub fn row_dir_three<T>(direction: LayoutDirection, start: T, center: T, end: T) -> (row: Vec<T>)
    ensures
        row@ == physical_order(direction, seq![start, center, end]),
        row@[1] == center,
{
    let mut row: Vec<T> = Vec::new();
    match direction {
        LayoutDirection::Ltr => {
            row.push(start);
            row.push(center);
            row.push(end);
        },
        LayoutDirection::Rtl => {
            row.push(end);
            row.push(center);
            row.push(start);
        },
    }
    assert(row@ =~= physical_order(direction, seq![start, center, end]));
    row
}

/// Mirroring is undone by mirroring again: placing a physical row back
/// through the same direction restores the logical order.
pub proof fn physical_order_involutive<T>(direction: LayoutDirection, items: Seq<T>)
    ensures
        physical_order(direction, physical_order(direction, items)) == items,
{
    assert(physical_order(direction, physical_order(direction, items)) =~= items);
}

/// Under RTL the item at logical position `i` lands at physical position
/// `len - 1 - i`; under LTR it stays at `i`. Nothing is added or lost.
pub proof fn physical_position<T>(direction: LayoutDirection, items: Seq<T>, i: int)
    requires
        0 <= i < items.len(),
    ensures
        physical_order(direction, items).len() == items.len(),
        direction == LayoutDirection::Ltr ==> physical_order(direction, items)[i] == items[i],
        direction == LayoutDirection::Rtl ==> physical_order(direction, items)[items.len() - 1 - i]
            == items[i],
{
}

} // verus!
