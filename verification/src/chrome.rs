//! What the sidebar rail, the header bar and the tab bar hold, in the
//! order they are drawn: which entry is the active one, what pressing it
//! reports, and which side each group sits on under the reading
//! direction.
//!
//! Identifiers are compared with their own `==`; what an entry's
//! `active` flag says is stated for identifier types whose `==` is
//! equality as `PartialEqSpec` defines it.

use vstd::prelude::*;
use vstd::std_specs::cmp::PartialEqSpec;
use crate::direction::{LayoutDirection, in_physical_order, physical_order, row_dir};
use crate::menu::Menu;
use crate::toast::{Horizontal, end_side};
use crate::widgets::tooltip_side;

verus! {

/// One entry of the sidebar rail.
pub struct SideBarItem<M, V, Icon> {
    pub view_id: V,
    pub icon: Icon,
    pub tooltip: String,
    pub on_press: M,
}

/// The rail's entries and the view that is showing.
pub struct SideBar<M, V, Icon> {
    pub items: Vec<SideBarItem<M, V, Icon>>,
    pub active: V,
}

/// A button of the rail.
pub struct RailButton<M, Icon> {
    pub icon: Icon,
    pub tooltip: String,
    pub on_press: M,
    /// Whether this button's view is the one showing.
    pub active: bool,
}

/// The rail as it is drawn: its buttons top to bottom, and the side its
/// tooltips open on.
pub struct RailView<M, Icon> {
    pub buttons: Vec<RailButton<M, Icon>>,
    pub tooltip_side: Horizontal,
}

/// Lays out the rail: one button per item, in order, each pressing its
/// item's message; a button is active exactly when its item's view is
/// the active one. Tooltips open on the end side.
pub fn side_bar_view<M, V: PartialEq, Icon>(side_bar: SideBar<M, V, Icon>, direction: LayoutDirection) -> (view: RailView<M, Icon>)
    ensures
        view.tooltip_side == end_side(direction),
        view.buttons@.len() == side_bar.items@.len(),
        forall|i: int|
            0 <= i < side_bar.items@.len() ==> {
                &&& (#[trigger] view.buttons@[i]).icon == side_bar.items@[i].icon
                &&& view.buttons@[i].tooltip == side_bar.items@[i].tooltip
                &&& view.buttons@[i].on_press == side_bar.items@[i].on_press
                &&& V::obeys_eq_spec() ==> (view.buttons@[i].active <==> side_bar.items@[i].view_id.eq_spec(
                    &side_bar.active,
                ))
            },
{
    let SideBar { items, active } = side_bar;
    let ghost all = items@;
    let mut rest = in_physical_order(LayoutDirection::Rtl, items);
    let mut buttons: Vec<RailButton<M, Icon>> = Vec::new();
    while rest.len() > 0
        invariant
            buttons@.len() + rest@.len() == all.len(),
            forall|j: int| 0 <= j < rest@.len() ==> #[trigger] rest@[j] == all[all.len() - 1 - j],
            forall|j: int|
                0 <= j < buttons@.len() ==> {
                    &&& (#[trigger] buttons@[j]).icon == all[j].icon
                    &&& buttons@[j].tooltip == all[j].tooltip
                    &&& buttons@[j].on_press == all[j].on_press
                    &&& V::obeys_eq_spec() ==> (buttons@[j].active <==> all[j].view_id.eq_spec(&active))
                },
        decreases rest@.len(),
    {
        let ghost k = buttons@.len();
        let item = rest.pop().unwrap();
        assert(item == all[k as int]);
        let is_active = item.view_id == active;
        let SideBarItem { view_id, icon, tooltip, on_press } = item;
        buttons.push(RailButton { icon, tooltip, on_press, active: is_active });
    }
    RailView { buttons, tooltip_side: tooltip_side(direction) }
}

/// A menu of the header, and whether it is the open one.
pub struct HeaderMenuEntry<MenuId, ItemId, Icon> {
    pub menu: Menu<MenuId, ItemId, Icon>,
    pub is_active: bool,
}

/// The two groups of the header bar.
#[derive(Debug, Clone, Copy, PartialEq, Eq, Structural)]
pub enum HeaderGroup {
    Start,
    End,
}

/// A part of a header group.
pub enum HeaderPart<E, MenuId, ItemId, Icon> {
    /// The application's title, in bold.
    Title,
    /// Empty space of this many logical pixels.
    Spacer(u16),
    /// A menu trigger, open or not.
    Menu(HeaderMenuEntry<MenuId, ItemId, Icon>),
    /// Space that grows to push the end controls to the end edge.
    Filler,
    /// The application's end controls.
    Controls(E),
}

/// Width of the space between the title and the first menu, in logical
/// pixels.
pub const TITLE_SPACER: u16 = 20;

/// The header bar as it is drawn.
pub struct HeaderView<E, MenuId, ItemId, Icon> {
    /// The start group, left to right: the title, a spacer, the menus.
    pub start: Vec<HeaderPart<E, MenuId, ItemId, Icon>>,
    /// The end group, left to right: the filler and the end controls,
    /// with the controls on the end edge.
    pub end: Vec<HeaderPart<E, MenuId, ItemId, Icon>>,
    /// The two groups, left to right.
    pub groups: Vec<HeaderGroup>,
}

/// Whether `id` names the open menu.
pub open spec fn names_open_menu<MenuId: PartialEq>(id: MenuId, active_menu_id: Option<&MenuId>) -> bool {
    match active_menu_id {
        Some(open) => id.eq_spec(open),
        None => false,
    }
}

/// Whether `part` is the trigger of `menu`, open exactly when `menu` is
/// the one `active_menu_id` names.
pub open spec fn is_menu_part<E, MenuId: PartialEq, ItemId, Icon>(
    part: HeaderPart<E, MenuId, ItemId, Icon>,
    menu: Menu<MenuId, ItemId, Icon>,
    active_menu_id: Option<&MenuId>,
) -> bool {
    &&& part matches HeaderPart::Menu(entry) && entry.menu == menu
    &&& MenuId::obeys_eq_spec() ==> (part->Menu_0.is_active <==> names_open_menu(menu.id, active_menu_id))
}

/// The end group, left to right: the filler, then the controls when there
/// are any, mirrored under right-to-left so the controls stay on the end
/// edge.
pub open spec fn spec_end_group<E, MenuId, ItemId, Icon>(
    end_controls: Option<E>,
    direction: LayoutDirection,
) -> Seq<HeaderPart<E, MenuId, ItemId, Icon>> {
    match end_controls {
        Some(c) => physical_order(direction, seq![HeaderPart::Filler, HeaderPart::Controls(c)]),
        None => seq![HeaderPart::Filler],
    }
}

/// Lays out the header. The start group is the title, a twenty-pixel
/// spacer and the menus in the order given, each open exactly when its id
/// is `active_menu_id`; it sits on the start side. The end group is a
/// filler and the end controls, which are pinned to the end edge; it
/// sits on the end side.
pub fn header_view<E, MenuId: PartialEq, ItemId, Icon>(
    menus: Vec<Menu<MenuId, ItemId, Icon>>,
    active_menu_id: Option<&MenuId>,
    end_controls: Option<E>,
    direction: LayoutDirection,
) -> (view: HeaderView<E, MenuId, ItemId, Icon>)
    ensures
        view.groups@ == physical_order(direction, seq![HeaderGroup::Start, HeaderGroup::End]),
        view.start@.len() == menus@.len() + 2,
        view.start@[0] is Title,
        view.start@[1] == HeaderPart::<E, MenuId, ItemId, Icon>::Spacer(TITLE_SPACER),
        forall|j: int|
            2 <= j < view.start@.len() ==> is_menu_part(#[trigger] view.start@[j], menus@[j - 2], active_menu_id),
        view.end@ == spec_end_group::<E, MenuId, ItemId, Icon>(end_controls, direction),
{
    let ghost all = menus@;
    let mut rest = in_physical_order(LayoutDirection::Rtl, menus);
    let mut start: Vec<HeaderPart<E, MenuId, ItemId, Icon>> = Vec::new();
    start.push(HeaderPart::Title);
    start.push(HeaderPart::Spacer(TITLE_SPACER));
    while rest.len() > 0
        invariant
            start@.len() + rest@.len() == all.len() + 2,
            start@.len() >= 2,
            start@[0] is Title,
            start@[1] == HeaderPart::<E, MenuId, ItemId, Icon>::Spacer(TITLE_SPACER),
            forall|j: int| 0 <= j < rest@.len() ==> #[trigger] rest@[j] == all[all.len() - 1 - j],
            forall|j: int| 2 <= j < start@.len() ==> is_menu_part(#[trigger] start@[j], all[j - 2], active_menu_id),
        decreases rest@.len(),
    {
        let ghost k = start@.len() - 2;
        let menu = rest.pop().unwrap();
        assert(menu == all[k as int]);
        let is_active = match active_menu_id {
            Some(open) => menu.id == *open,
            None => false,
        };
        start.push(HeaderPart::Menu(HeaderMenuEntry { menu, is_active }));
    }
    let mut end: Vec<HeaderPart<E, MenuId, ItemId, Icon>> = Vec::new();
    match end_controls {
        Some(c) => match direction {
            LayoutDirection::Ltr => {
                end.push(HeaderPart::Filler);
                end.push(HeaderPart::Controls(c));
            },
            LayoutDirection::Rtl => {
                end.push(HeaderPart::Controls(c));
                end.push(HeaderPart::Filler);
            },
        },
        None => end.push(HeaderPart::Filler),
    }
    assert(end@ =~= spec_end_group::<E, MenuId, ItemId, Icon>(end_controls, direction));
    HeaderView { start, end, groups: row_dir(direction, HeaderGroup::Start, HeaderGroup::End) }
}

/// One tab.
pub struct Tab<TabId, Icon> {
    pub id: TabId,
    pub label: String,
    pub icon: Option<Icon>,
}

/// The tabs and the one that is showing.
pub struct TabBar<TabId, Icon> {
    pub tabs: Vec<Tab<TabId, Icon>>,
    pub active: TabId,
}

/// What pressing a tab reports.
#[derive(Debug, Clone, PartialEq, Eq)]
pub enum TabAction<TabId> {
    Pressed(TabId),
}

/// A tab as it is drawn; the active one is underlined.
pub struct TabEntry<TabId, Icon> {
    pub label: String,
    pub icon: Option<Icon>,
    pub is_active: bool,
    pub action: TabAction<TabId>,
}

/// The two parts of the tab bar's row: the tabs and a filler.
#[derive(Debug, Clone, Copy, PartialEq, Eq, Structural)]
pub enum TabBarGroup {
    Tabs,
    Filler,
}

/// The tab bar as it is drawn.
pub struct TabBarView<TabId, Icon> {
    /// The tabs, left to right.
    pub tabs: Vec<TabEntry<TabId, Icon>>,
    /// The tabs and the filler, left to right.
    pub groups: Vec<TabBarGroup>,
}

/// Lays out the tab bar: the tabs in reading order, each reporting
/// `Pressed` with its own id and active exactly when its id is the
/// active one; the tabs on the start side, the filler on the end side.
pub fn tab_bar_view<TabId: PartialEq, Icon>(bar: TabBar<TabId, Icon>, direction: LayoutDirection) -> (view: TabBarView<TabId, Icon>)
    ensures
        view.groups@ == physical_order(direction, seq![TabBarGroup::Tabs, TabBarGroup::Filler]),
        view.tabs@.len() == bar.tabs@.len(),
        forall|i: int|
            0 <= i < bar.tabs@.len() ==> {
                let tab = physical_order(direction, bar.tabs@)[i];
                &&& (#[trigger] view.tabs@[i]).label == tab.label
                &&& view.tabs@[i].icon == tab.icon
                &&& view.tabs@[i].action == TabAction::Pressed(tab.id)
                &&& TabId::obeys_eq_spec() ==> (view.tabs@[i].is_active <==> tab.id.eq_spec(&bar.active))
            },
{
    let TabBar { tabs, active } = bar;
    let placed = in_physical_order(direction, tabs);
    let ghost all = placed@;
    let mut rest = in_physical_order(LayoutDirection::Rtl, placed);
    let mut entries: Vec<TabEntry<TabId, Icon>> = Vec::new();
    while rest.len() > 0
        invariant
            entries@.len() + rest@.len() == all.len(),
            forall|j: int| 0 <= j < rest@.len() ==> #[trigger] rest@[j] == all[all.len() - 1 - j],
            forall|j: int|
                0 <= j < entries@.len() ==> {
                    &&& (#[trigger] entries@[j]).label == all[j].label
                    &&& entries@[j].icon == all[j].icon
                    &&& entries@[j].action == TabAction::Pressed(all[j].id)
                    &&& TabId::obeys_eq_spec() ==> (entries@[j].is_active <==> all[j].id.eq_spec(&active))
                },
        decreases rest@.len(),
    {
        let ghost k = entries@.len();
        let tab = rest.pop().unwrap();
        assert(tab == all[k as int]);
        let is_active = tab.id == active;
        let Tab { id, label, icon } = tab;
        entries.push(TabEntry { label, icon, is_active, action: TabAction::Pressed(id) });
    }
    TabBarView { tabs: entries, groups: row_dir(direction, TabBarGroup::Tabs, TabBarGroup::Filler) }
}

} // verus!
