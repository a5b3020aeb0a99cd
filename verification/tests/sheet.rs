use snora::sheet::{
    anchor_side, percent, portions, rounded_corners, sheet_split, Cell, Corners, Extent, SheetEdge,
    SheetSize, SheetSplit, Side,
};
use snora::LayoutDirection;

#[test]
fn bottom_sheet_portions_handle_edges() {
    assert_eq!(portions(1, 2), (50, 50));
    assert_eq!(portions(1, 3), (67, 33));
    assert_eq!(portions(2, 3), (33, 67));
    // Clamp at endpoints.
    let (t, s) = portions(0, 1);
    assert!(t > 0 && s > 0);
    let (t, s) = portions(1, 1);
    assert!(t > 0 && s > 0);
}

#[test]
fn sheet_portions_handle_edges() {
    assert_eq!(portions(1, 2), (50, 50));
    assert_eq!(portions(1, 3), (67, 33));
    assert_eq!(portions(2, 3), (33, 67));
    let (a, b) = portions(0, 1);
    assert!(a > 0 && b > 0);
    let (a, b) = portions(1, 1);
    assert!(a > 0 && b > 0);
}

#[test]
fn portions_at_the_extremes() {
    assert_eq!(portions(0, 1), (100, 1));
    assert_eq!(portions(1, 1), (1, 100));
    assert_eq!(portions(5, 1), (1, 100));
    assert_eq!(portions(1, 0), (1, 100));
    assert_eq!(portions(0, 0), (100, 1));
    assert_eq!(portions(1, 1000), (100, 1));
    assert_eq!(portions(u32::MAX, u32::MAX), (1, 100));
}

#[test]
fn percent_rounds_half_up_and_clamps() {
    assert_eq!(percent(1, 3), 33);
    assert_eq!(percent(2, 3), 67);
    assert_eq!(percent(1, 200), 1);
    assert_eq!(percent(1, 201), 0);
    assert_eq!(percent(3, 2), 100);
    assert_eq!(percent(7, 0), 100);
    assert_eq!(percent(0, 0), 0);
}

#[test]
fn sizes_as_ratios() {
    assert_eq!(SheetSize::OneThird.as_ratio(), Some((1, 3)));
    assert_eq!(SheetSize::Half.as_ratio(), Some((1, 2)));
    assert_eq!(SheetSize::TwoThirds.as_ratio(), Some((2, 3)));
    assert_eq!(SheetSize::Ratio { numerator: 3, denominator: 4 }.as_ratio(), Some((3, 4)));
    assert_eq!(SheetSize::Pixels(320).as_ratio(), None);
}

#[test]
fn logical_edges_resolve_through_the_direction() {
    assert_eq!(anchor_side(SheetEdge::Top, LayoutDirection::Rtl), Side::Top);
    assert_eq!(anchor_side(SheetEdge::Bottom, LayoutDirection::Rtl), Side::Bottom);
    assert_eq!(anchor_side(SheetEdge::Start, LayoutDirection::Ltr), Side::Left);
    assert_eq!(anchor_side(SheetEdge::Start, LayoutDirection::Rtl), Side::Right);
    assert_eq!(anchor_side(SheetEdge::End, LayoutDirection::Ltr), Side::Right);
    assert_eq!(anchor_side(SheetEdge::End, LayoutDirection::Rtl), Side::Left);
    assert!(SheetEdge::Top.is_vertical());
    assert!(!SheetEdge::End.is_vertical());
}

#[test]
fn bottom_sheet_sits_below_its_spacer() {
    assert_eq!(
        sheet_split(SheetEdge::Bottom, SheetSize::OneThird, LayoutDirection::Ltr),
        SheetSplit {
            vertical: true,
            first: Cell::Spacer(Extent::Portion(67)),
            second: Cell::Panel(Extent::Portion(33)),
        }
    );
}

#[test]
fn top_sheet_sits_above_its_spacer() {
    assert_eq!(
        sheet_split(SheetEdge::Top, SheetSize::Half, LayoutDirection::Rtl),
        SheetSplit {
            vertical: true,
            first: Cell::Panel(Extent::Portion(50)),
            second: Cell::Spacer(Extent::Portion(50)),
        }
    );
}

#[test]
fn end_sheet_takes_its_declared_share_on_either_side() {
    let ltr = sheet_split(SheetEdge::End, SheetSize::TwoThirds, LayoutDirection::Ltr);
    assert_eq!(
        ltr,
        SheetSplit {
            vertical: false,
            first: Cell::Spacer(Extent::Portion(33)),
            second: Cell::Panel(Extent::Portion(67)),
        }
    );
    let rtl = sheet_split(SheetEdge::End, SheetSize::TwoThirds, LayoutDirection::Rtl);
    assert_eq!(
        rtl,
        SheetSplit {
            vertical: false,
            first: Cell::Panel(Extent::Portion(67)),
            second: Cell::Spacer(Extent::Portion(33)),
        }
    );
}

#[test]
fn pixel_sheet_is_fixed_and_the_spacer_fills() {
    assert_eq!(
        sheet_split(SheetEdge::Start, SheetSize::Pixels(280), LayoutDirection::Ltr),
        SheetSplit { vertical: false, first: Cell::Panel(Extent::Fixed(280)), second: Cell::Spacer(Extent::Fill) }
    );
}

#[test]
fn only_inside_corners_are_rounded() {
    assert_eq!(
        rounded_corners(SheetEdge::Bottom, LayoutDirection::Ltr),
        Corners { top_left: true, top_right: true, bottom_left: false, bottom_right: false }
    );
    assert_eq!(
        rounded_corners(SheetEdge::Top, LayoutDirection::Ltr),
        Corners { top_left: false, top_right: false, bottom_left: true, bottom_right: true }
    );
    assert_eq!(
        rounded_corners(SheetEdge::Start, LayoutDirection::Ltr),
        Corners { top_left: false, top_right: true, bottom_left: false, bottom_right: true }
    );
    assert_eq!(
        rounded_corners(SheetEdge::Start, LayoutDirection::Rtl),
        Corners { top_left: true, top_right: false, bottom_left: true, bottom_right: false }
    );
}
