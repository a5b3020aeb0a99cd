//! Chrome geometry: the paddings, gaps and corner radii of the header,
//! footer, sidebar, tab bar, breadcrumb and menu.
//!
//! Each widget has one body and two geometry sources: the unstyled
//! literals, and the design path's mapping onto the token spacing and
//! radius scales.

use vstd::prelude::*;
use crate::paint::{Measure, RadiusRole, Space};

verus! {

/// Header geometry.
#[derive(Debug, Clone, Copy, PartialEq, Eq, Structural)]
pub struct HeaderGeometry {
    /// Gap between the title and the first menu, and before end controls.
    pub gap: Measure,
    pub pad_x: Measure,
    pub pad_y: Measure,
    pub radius: Measure,
    /// Icon-to-label gap inside each menu trigger.
    pub menu_gap: Measure,
}

/// Footer geometry.
#[derive(Debug, Clone, Copy, PartialEq, Eq, Structural)]
pub struct FooterGeometry {
    pub pad_x: Measure,
    pub pad_y: Measure,
    pub radius: Measure,
}

/// Sidebar rail geometry.
#[derive(Debug, Clone, Copy, PartialEq, Eq, Structural)]
pub struct SideBarGeometry {
    /// Gap between icon buttons.
    pub gap: Measure,
    /// Rail padding above the first button and below the last.
    pub padding: Measure,
    pub button_radius: Measure,
}

/// Tab bar geometry.
#[derive(Debug, Clone, Copy, PartialEq, Eq, Structural)]
pub struct TabGeometry {
    pub bar_gap: Measure,
    pub bar_pad_x: Measure,
    /// Icon-to-label gap inside a tab.
    pub content_gap: Measure,
    pub tab_pad_x: Measure,
    pub tab_pad_y: Measure,
    pub bar_border_radius: Measure,
}

/// Breadcrumb geometry.
#[derive(Debug, Clone, Copy, PartialEq, Eq, Structural)]
pub struct CrumbGeometry {
    /// Gap between a crumb and a separator.
    pub gap: Measure,
    pub row_pad_x: Measure,
    pub row_pad_y: Measure,
    pub btn_pad_x: Measure,
    pub btn_pad_y: Measure,
    pub btn_radius: Measure,
}

/// Menu geometry.
#[derive(Debug, Clone, Copy, PartialEq, Eq, Structural)]
pub struct MenuGeometry {
    /// Icon-to-label gap inside a menu entry.
    pub gap: Measure,
}

impl MenuGeometry {
    /// The unstyled literals.
    pub fn unstyled() -> (g: MenuGeometry)
        ensures
            g == (MenuGeometry { gap: Measure::Px(6) }),
    {
        MenuGeometry { gap: Measure::Px(6) }
    }
}

impl HeaderGeometry {
    /// The unstyled literals: square corners.
    pub fn unstyled() -> (g: HeaderGeometry)
        ensures
            g == (HeaderGeometry {
                gap: Measure::Px(12),
                pad_x: Measure::Px(16),
                pad_y: Measure::Px(8),
                radius: Measure::Px(0),
                menu_gap: Measure::Px(6),
            }),
    {
        HeaderGeometry {
            gap: Measure::Px(12),
            pad_x: Measure::Px(16),
            pad_y: Measure::Px(8),
            radius: Measure::Px(0),
            menu_gap: MenuGeometry::unstyled().gap,
        }
    }
}

impl FooterGeometry {
    /// The unstyled literals: square corners.
    pub fn unstyled() -> (g: FooterGeometry)
        ensures
            g == (FooterGeometry { pad_x: Measure::Px(16), pad_y: Measure::Px(6), radius: Measure::Px(0) }),
    {
        FooterGeometry { pad_x: Measure::Px(16), pad_y: Measure::Px(6), radius: Measure::Px(0) }
    }
}

impl SideBarGeometry {
    /// The unstyled literals.
    pub fn unstyled() -> (g: SideBarGeometry)
        ensures
            g == (SideBarGeometry { gap: Measure::Px(16), padding: Measure::Px(16), button_radius: Measure::Px(6) }),
    {
        SideBarGeometry { gap: Measure::Px(16), padding: Measure::Px(16), button_radius: Measure::Px(6) }
    }
}

impl TabGeometry {
    /// The unstyled literals: square bar corners.
    pub fn unstyled() -> (g: TabGeometry)
        ensures
            g == (TabGeometry {
                bar_gap: Measure::Px(2),
                bar_pad_x: Measure::Px(12),
                content_gap: Measure::Px(6),
                tab_pad_x: Measure::Px(12),
                tab_pad_y: Measure::Px(8),
                bar_border_radius: Measure::Px(0),
            }),
    {
        TabGeometry {
            bar_gap: Measure::Px(2),
            bar_pad_x: Measure::Px(12),
            content_gap: Measure::Px(6),
            tab_pad_x: Measure::Px(12),
            tab_pad_y: Measure::Px(8),
            bar_border_radius: Measure::Px(0),
        }
    }
}

impl CrumbGeometry {
    /// The unstyled literals.
    pub fn unstyled() -> (g: CrumbGeometry)
        ensures
            g == (CrumbGeometry {
                gap: Measure::Px(6),
                row_pad_x: Measure::Px(12),
                row_pad_y: Measure::Px(4),
                btn_pad_x: Measure::Px(4),
                btn_pad_y: Measure::Px(2),
                btn_radius: Measure::Px(3),
            }),
    {
        CrumbGeometry {
            gap: Measure::Px(6),
            row_pad_x: Measure::Px(12),
            row_pad_y: Measure::Px(4),
            btn_pad_x: Measure::Px(4),
            btn_pad_y: Measure::Px(2),
            btn_radius: Measure::Px(3),
        }
    }
}

/// The design path's header geometry.
pub open spec fn spec_header_geometry() -> HeaderGeometry {
    HeaderGeometry {
        gap: Measure::Spacing(Space::Md),
        pad_x: Measure::Spacing(Space::Lg),
        pad_y: Measure::Spacing(Space::Sm),
        radius: Measure::Radius(RadiusRole::Sm),
        menu_gap: Measure::Spacing(Space::Sm),
    }
}

/// The design path's header geometry, read from the token scales.
pub fn header_geometry() -> (g: HeaderGeometry)
    ensures
        g == spec_header_geometry(),
{
    HeaderGeometry {
        gap: Measure::Spacing(Space::Md),
        pad_x: Measure::Spacing(Space::Lg),
        pad_y: Measure::Spacing(Space::Sm),
        radius: Measure::Radius(RadiusRole::Sm),
        menu_gap: Measure::Spacing(Space::Sm),
    }
}

/// The design path's footer geometry.
pub open spec fn spec_footer_geometry() -> FooterGeometry {
    FooterGeometry {
        pad_x: Measure::Spacing(Space::Lg),
        pad_y: Measure::Spacing(Space::Sm),
        radius: Measure::Radius(RadiusRole::Sm),
    }
}

/// The design path's footer geometry, read from the token scales.
pub fn footer_geometry() -> (g: FooterGeometry)
    ensures
        g == spec_footer_geometry(),
{
    FooterGeometry {
        pad_x: Measure::Spacing(Space::Lg),
        pad_y: Measure::Spacing(Space::Sm),
        radius: Measure::Radius(RadiusRole::Sm),
    }
}

/// The design path's sidebar geometry, read from the token scales.
pub fn side_bar_geometry() -> (g: SideBarGeometry)
    ensures
        g == (SideBarGeometry {
            gap: Measure::Spacing(Space::Md),
            padding: Measure::Spacing(Space::Lg),
            button_radius: Measure::Radius(RadiusRole::Md),
        }),
{
    SideBarGeometry {
        gap: Measure::Spacing(Space::Md),
        padding: Measure::Spacing(Space::Lg),
        button_radius: Measure::Radius(RadiusRole::Md),
    }
}

/// The design path's tab bar geometry.
pub open spec fn spec_tab_geometry() -> TabGeometry {
    TabGeometry {
        bar_gap: Measure::Spacing(Space::Xs),
        bar_pad_x: Measure::Spacing(Space::Md),
        content_gap: Measure::Spacing(Space::Sm),
        tab_pad_x: Measure::Spacing(Space::Md),
        tab_pad_y: Measure::Spacing(Space::Sm),
        bar_border_radius: Measure::Radius(RadiusRole::Sm),
    }
}

/// The design path's tab bar geometry, read from the token scales.
pub fn tab_geometry() -> (g: TabGeometry)
    ensures
        g == spec_tab_geometry(),
{
    TabGeometry {
        bar_gap: Measure::Spacing(Space::Xs),
        bar_pad_x: Measure::Spacing(Space::Md),
        content_gap: Measure::Spacing(Space::Sm),
        tab_pad_x: Measure::Spacing(Space::Md),
        tab_pad_y: Measure::Spacing(Space::Sm),
        bar_border_radius: Measure::Radius(RadiusRole::Sm),
    }
}

/// The design path's breadcrumb geometry.
pub open spec fn spec_breadcrumb_geometry() -> CrumbGeometry {
    CrumbGeometry {
        gap: Measure::Spacing(Space::Sm),
        row_pad_x: Measure::Spacing(Space::Md),
        row_pad_y: Measure::Spacing(Space::Xs),
        btn_pad_x: Measure::Spacing(Space::Xs),
        btn_pad_y: Measure::Spacing(Space::Xs),
        btn_radius: Measure::Radius(RadiusRole::Sm),
    }
}

/// The design path's breadcrumb geometry, read from the token scales.
pub fn breadcrumb_geometry() -> (g: CrumbGeometry)
    ensures
        g == spec_breadcrumb_geometry(),
{
    CrumbGeometry {
        gap: Measure::Spacing(Space::Sm),
        row_pad_x: Measure::Spacing(Space::Md),
        row_pad_y: Measure::Spacing(Space::Xs),
        btn_pad_x: Measure::Spacing(Space::Xs),
        btn_pad_y: Measure::Spacing(Space::Xs),
        btn_radius: Measure::Radius(RadiusRole::Sm),
    }
}

/// On the design path the header, footer and tab bar share one chrome
/// radius, no longer the flat square corner; and the three inline
/// icon-to-label gaps (tab, crumb, menu trigger) share one rhythm.
pub proof fn design_chrome_shares_radius_and_rhythm()
    ensures
        spec_header_geometry().radius == spec_footer_geometry().radius,
        spec_header_geometry().radius == spec_tab_geometry().bar_border_radius,
        spec_header_geometry().radius != Measure::Px(0),
        spec_tab_geometry().content_gap == spec_breadcrumb_geometry().gap,
        spec_tab_geometry().content_gap == spec_header_geometry().menu_gap,
{
}

/// Width of the sidebar rail, in logical pixels.
pub const RAIL_WIDTH: u16 = 64;

/// Side of a sidebar icon button, in logical pixels.
pub const BUTTON_SIZE: u16 = 48;

/// The rail's horizontal padding: what is left once a button is centred
/// in the rail, split evenly, so the button keeps its full width.
pub fn rail_horizontal_padding() -> (padding: u16)
    ensures
        2 * padding + BUTTON_SIZE == RAIL_WIDTH,
{
    (RAIL_WIDTH - BUTTON_SIZE) / 2
}

} // verus!
