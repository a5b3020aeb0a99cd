//! Edge-anchored sheets: which physical edge a sheet sits against, how
//! the window is split between the sheet and the spacer beside it, and
//! which of the panel's corners are rounded.

use vstd::prelude::*;
use crate::direction::LayoutDirection;

verus! {

/// The window edge a sheet is anchored to. `Start` and `End` are logical.
#[derive(Debug, Clone, Copy, PartialEq, Eq, Structural)]
pub enum SheetEdge {
    Top,
    Bottom,
    Start,
    End,
}

impl SheetEdge {
    /// Whether the sheet spans the window's width (top or bottom edge).
    pub open spec fn spec_is_vertical(self) -> bool {
        self is Top || self is Bottom
    }

    /// Whether the sheet spans the window's width (top or bottom edge).
    #[verifier::when_used_as_spec(spec_is_vertical)]
    pub fn is_vertical(self) -> (v: bool)
        ensures
            v == self.spec_is_vertical(),
    {
        match self {
            SheetEdge::Top | SheetEdge::Bottom => true,
            _ => false,
        }
    }
}

/// How deep a sheet reaches into the window, perpendicular to its edge.
#[derive(Debug, Clone, Copy, PartialEq, Eq, Structural)]
pub enum SheetSize {
    OneThird,
    Half,
    TwoThirds,
    /// `numerator / denominator` of the window.
    Ratio { numerator: u32, denominator: u32 },
    /// A fixed depth in logical pixels.
    Pixels(u32),
}

impl SheetSize {
    /// The size as a fraction of the window, or `None` for a pixel size.
    pub open spec fn spec_as_ratio(self) -> Option<(u32, u32)> {
        match self {
            SheetSize::OneThird => Some((1u32, 3u32)),
            SheetSize::Half => Some((1u32, 2u32)),
            SheetSize::TwoThirds => Some((2u32, 3u32)),
            SheetSize::Ratio { numerator, denominator } => Some((numerator, denominator)),
            SheetSize::Pixels(_) => None,
        }
    }

    /// The size as a fraction of the window, or `None` for a pixel size.
    #[verifier::when_used_as_spec(spec_as_ratio)]
    pub fn as_ratio(self) -> (r: Option<(u32, u32)>)
        ensures
            r == self.spec_as_ratio(),
    {
        match self {
            SheetSize::OneThird => Some((1, 3)),
            SheetSize::Half => Some((1, 2)),
            SheetSize::TwoThirds => Some((2, 3)),
            SheetSize::Ratio { numerator, denominator } => Some((numerator, denominator)),
            SheetSize::Pixels(_) => None,
        }
    }
}

/// `numerator / denominator` in hundredths, rounded half up and capped at
/// 100. A zero denominator reads as the whole window, or as nothing when
/// the numerator is zero too.
pub open spec fn spec_percent(numerator: u32, denominator: u32) -> nat {
    if denominator == 0 {
        if numerator > 0 { 100 } else { 0 }
    } else {
        let p = (200 * numerator + denominator) / (2 * denominator);
        if p > 100 { 100 } else { p as nat }
    }
}

/// The share of the window, in hundredths, a ratio amounts to.
pub fn percent(numerator: u32, denominator: u32) -> (p: u16)
    ensures
        p == spec_percent(numerator, denominator),
        p <= 100,
{
    if denominator == 0 {
        if numerator > 0 { 100 } else { 0 }
    } else {
        let n = numerator as u64;
        let d = denominator as u64;
        let p = (200 * n + d) / (2 * d);
        if p > 100 { 100 } else { p as u16 }
    }
}

/// The `(spacer, sheet)` fill portions for a sheet taking `sheet_percent`
/// hundredths of the window. Neither portion is ever zero, which a
/// layout engine could not divide by.
pub open spec fn spec_portions(sheet_percent: nat) -> (nat, nat) {
    let spacer = if sheet_percent >= 100 { 0 } else { (100 - sheet_percent) as nat };
    if sheet_percent == 0 {
        (100, 1)
    } else if spacer == 0 {
        (1, 100)
    } else {
        (spacer, sheet_percent)
    }
}

/// Splits the window for a sheet covering `numerator / denominator` of
/// it: `(spacer, sheet)` portions out of 100, e.g. one third gives
/// `(67, 33)`.
pub fn portions(numerator: u32, denominator: u32) -> (split: (u16, u16))
    ensures
        split.0 == spec_portions(spec_percent(numerator, denominator) as nat).0,
        split.1 == spec_portions(spec_percent(numerator, denominator) as nat).1,
{
    let sheet = percent(numerator, denominator);
    let spacer = 100 - sheet;
    if sheet == 0 {
        (100, 1)
    } else if spacer == 0 {
        (1, 100)
    } else {
        (spacer, sheet)
    }
}

/// Both portions are positive and at most 100; away from the two
/// extremes they add up to the whole window and the sheet gets exactly
/// its share.
pub proof fn portions_are_usable(sheet_percent: nat)
    requires
        sheet_percent <= 100,
    ensures
        1 <= spec_portions(sheet_percent).0 <= 100,
        1 <= spec_portions(sheet_percent).1 <= 100,
        1 <= sheet_percent <= 99 ==> spec_portions(sheet_percent).1 == sheet_percent
            && spec_portions(sheet_percent).0 + spec_portions(sheet_percent).1 == 100,
{
}

/// A physical window edge.
#[derive(Debug, Clone, Copy, PartialEq, Eq, Structural)]
pub enum Side {
    Top,
    Bottom,
    Left,
    Right,
}

/// The physical edge a sheet is anchored to under a reading direction.
pub open spec fn spec_anchor_side(edge: SheetEdge, direction: LayoutDirection) -> Side {
    match edge {
        SheetEdge::Top => Side::Top,
        SheetEdge::Bottom => Side::Bottom,
        SheetEdge::Start => if direction == LayoutDirection::Ltr { Side::Left } else { Side::Right },
        SheetEdge::End => if direction == LayoutDirection::Ltr { Side::Right } else { Side::Left },
    }
}

/// Resolves a sheet's logical edge to the physical one.
pub fn anchor_side(edge: SheetEdge, direction: LayoutDirection) -> (side: Side)
    ensures
        side == spec_anchor_side(edge, direction),
{
    match edge {
        SheetEdge::Top => Side::Top,
        SheetEdge::Bottom => Side::Bottom,
        SheetEdge::Start => match direction {
            LayoutDirection::Ltr => Side::Left,
            LayoutDirection::Rtl => Side::Right,
        },
        SheetEdge::End => match direction {
            LayoutDirection::Ltr => Side::Right,
            LayoutDirection::Rtl => Side::Left,
        },
    }
}

/// The extent of one cell along the split axis.
#[derive(Debug, Clone, Copy, PartialEq, Eq, Structural)]
pub enum Extent {
    /// A share of the space, against the other cell's share.
    Portion(u16),
    /// A fixed number of logical pixels.
    Fixed(u32),
    /// Whatever the other cell leaves.
    Fill,
}

/// One cell of a sheet's split: the panel or the empty spacer.
#[derive(Debug, Clone, Copy, PartialEq, Eq, Structural)]
pub enum Cell {
    Panel(Extent),
    Spacer(Extent),
}

/// How the window is split for a sheet: along the vertical axis (a
/// column, top cell first) or the horizontal one (a row, left cell
/// first).
#[derive(Debug, Clone, Copy, PartialEq, Eq, Structural)]
pub struct SheetSplit {
    pub vertical: bool,
    pub first: Cell,
    pub second: Cell,
}

/// The panel's and the spacer's extents for `size`.
pub open spec fn spec_extents(size: SheetSize) -> (Extent, Extent) {
    match size.spec_as_ratio() {
        Some((n, d)) => {
            let (spacer, sheet) = spec_portions(spec_percent(n, d) as nat);
            (Extent::Portion(sheet as u16), Extent::Portion(spacer as u16))
        },
        None => (Extent::Fixed(size->Pixels_0), Extent::Fill),
    }
}

/// The split for a sheet: the panel sits against its anchor edge, the
/// spacer takes the other side.
pub open spec fn spec_sheet_split(edge: SheetEdge, size: SheetSize, direction: LayoutDirection) -> SheetSplit {
    let (panel, spacer) = spec_extents(size);
    let side = spec_anchor_side(edge, direction);
    let panel_first = side is Top || side is Left;
    SheetSplit {
        vertical: edge.spec_is_vertical(),
        first: if panel_first { Cell::Panel(panel) } else { Cell::Spacer(spacer) },
        second: if panel_first { Cell::Spacer(spacer) } else { Cell::Panel(panel) },
    }
}

/// Splits the window for a sheet anchored at `edge` with `size`.
pub fn sheet_split(edge: SheetEdge, size: SheetSize, direction: LayoutDirection) -> (split: SheetSplit)
    ensures
        split == spec_sheet_split(edge, size, direction),
{
    let (panel, spacer) = match size.as_ratio() {
        Some((n, d)) => {
            let (spacer, sheet) = portions(n, d);
            (Extent::Portion(sheet), Extent::Portion(spacer))
        },
        None => {
            let px = match size {
                SheetSize::Pixels(px) => px,
                _ => 0,
            };
            (Extent::Fixed(px), Extent::Fill)
        },
    };
    let side = anchor_side(edge, direction);
    let panel_first = match side {
        Side::Top | Side::Left => true,
        _ => false,
    };
    if panel_first {
        SheetSplit { vertical: edge.is_vertical(), first: Cell::Panel(panel), second: Cell::Spacer(spacer) }
    } else {
        SheetSplit { vertical: edge.is_vertical(), first: Cell::Spacer(spacer), second: Cell::Panel(panel) }
    }
}

/// Which corners of a panel are rounded.
#[derive(Debug, Clone, Copy, PartialEq, Eq, Structural)]
pub struct Corners {
    pub top_left: bool,
    pub top_right: bool,
    pub bottom_left: bool,
    pub bottom_right: bool,
}

/// The corners facing away from `side`: those that sit against the
/// application content rather than the window edge.
pub open spec fn spec_inside_corners(side: Side) -> Corners {
    Corners {
        top_left: side is Bottom || side is Right,
        top_right: side is Bottom || side is Left,
        bottom_left: side is Top || side is Right,
        bottom_right: side is Top || side is Left,
    }
}

/// The rounded corners of a sheet's panel: only the inside-facing ones,
/// resolved through the reading direction for `Start`/`End`.
pub fn rounded_corners(edge: SheetEdge, direction: LayoutDirection) -> (corners: Corners)
    ensures
        corners == spec_inside_corners(spec_anchor_side(edge, direction)),
{
    match anchor_side(edge, direction) {
        Side::Bottom => Corners { top_left: true, top_right: true, bottom_left: false, bottom_right: false },
        Side::Top => Corners { top_left: false, top_right: false, bottom_left: true, bottom_right: true },
        Side::Left => Corners { top_left: false, top_right: true, bottom_left: false, bottom_right: true },
        Side::Right => Corners { top_left: true, top_right: false, bottom_left: true, bottom_right: false },
    }
}

/// A sheet's panel always touches its anchor edge, exactly two of its
/// corners are rounded and they face away from that edge, and switching
/// the reading direction moves a `Start`/`End` sheet to the other side.
pub proof fn sheet_hugs_its_edge(edge: SheetEdge, size: SheetSize, direction: LayoutDirection)
    ensures
        ({
            let split = spec_sheet_split(edge, size, direction);
            let side = spec_anchor_side(edge, direction);
            &&& (side is Top || side is Left) ==> split.first is Panel
            &&& (side is Bottom || side is Right) ==> split.second is Panel
            &&& split.vertical == (side is Top || side is Bottom)
        }),
        ({
            let c = spec_inside_corners(spec_anchor_side(edge, direction));
            let side = spec_anchor_side(edge, direction);
            &&& (side is Top ==> !c.top_left && !c.top_right && c.bottom_left && c.bottom_right)
            &&& (side is Bottom ==> c.top_left && c.top_right && !c.bottom_left && !c.bottom_right)
            &&& (side is Left ==> !c.top_left && c.top_right && !c.bottom_left && c.bottom_right)
            &&& (side is Right ==> c.top_left && !c.top_right && c.bottom_left && !c.bottom_right)
        }),
        !edge.spec_is_vertical() ==> spec_anchor_side(edge, LayoutDirection::Ltr) != spec_anchor_side(
            edge,
            LayoutDirection::Rtl,
        ),
{
}

} // verus!
