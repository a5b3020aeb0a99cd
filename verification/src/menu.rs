//! Header menus: a trigger button, and below it, while the menu is open,
//! one entry per item. Every interaction becomes a [`MenuAction`] the
//! application maps to its own message.

use vstd::prelude::*;

verus! {

/// One entry of a menu.
pub struct MenuItem<MenuId, ItemId, Icon> {
    pub id: ItemId,
    /// The menu this entry belongs to.
    pub menu_id: MenuId,
    pub label: String,
    pub icon: Option<Icon>,
}

/// A drop-down menu of the header.
pub struct Menu<MenuId, ItemId, Icon> {
    pub id: MenuId,
    pub label: String,
    pub icon: Option<Icon>,
    pub items: Vec<MenuItem<MenuId, ItemId, Icon>>,
}

/// What pressing a menu control means.
pub enum MenuAction<MenuId, ItemId> {
    /// The trigger of menu `id` was pressed (open or close it).
    MenuPressed(MenuId),
    /// An entry was pressed.
    MenuItemPressed { menu_id: MenuId, menu_item_id: ItemId },
}

/// One drawn row of a menu: its label, its icon, and the action pressing
/// it reports.
pub struct MenuRow<MenuId, ItemId, Icon> {
    pub label: String,
    pub icon: Option<Icon>,
    pub action: MenuAction<MenuId, ItemId>,
}

/// The row drawn for an entry.
pub open spec fn item_row<MenuId, ItemId, Icon>(item: MenuItem<MenuId, ItemId, Icon>) -> MenuRow<MenuId, ItemId, Icon> {
    MenuRow {
        label: item.label,
        icon: item.icon,
        action: MenuAction::MenuItemPressed { menu_id: item.menu_id, menu_item_id: item.id },
    }
}

/// Whether `rows` are the rows of `menu`: the trigger first, then, only
/// while the menu is open, one row per entry in order.
pub open spec fn are_menu_rows<MenuId, ItemId, Icon>(
    rows: Seq<MenuRow<MenuId, ItemId, Icon>>,
    menu: Menu<MenuId, ItemId, Icon>,
    is_active: bool,
) -> bool {
    &&& rows.len() == 1 + (if is_active { menu.items@.len() } else { 0 })
    &&& rows[0] == (MenuRow { label: menu.label, icon: menu.icon, action: MenuAction::<MenuId, ItemId>::MenuPressed(menu.id) })
    &&& forall|i: int| 0 <= i < rows.len() - 1 ==> #[trigger] rows[i + 1] == item_row(menu.items@[i])
}

/// Lays out a menu: its trigger, then its entries when `is_active`.
pub fn menu_rows<MenuId, ItemId, Icon>(
    menu: Menu<MenuId, ItemId, Icon>,
    is_active: bool,
) -> (rows: Vec<MenuRow<MenuId, ItemId, Icon>>)
    ensures
        are_menu_rows(rows@, menu, is_active),
{
    let ghost m = menu;
    let Menu { id, label, icon, items } = menu;
    let mut rows: Vec<MenuRow<MenuId, ItemId, Icon>> = Vec::new();
    rows.push(MenuRow { label, icon, action: MenuAction::MenuPressed(id) });
    if !is_active {
        return rows;
    }
    let ghost all = items@;
    let mut rest = items;
    let mut reversed: Vec<MenuItem<MenuId, ItemId, Icon>> = Vec::new();
    while rest.len() > 0
        invariant
            rest@ == all.take(rest@.len() as int),
            reversed@.len() + rest@.len() == all.len(),
            forall|i: int| 0 <= i < reversed@.len() ==> #[trigger] reversed@[i] == all[all.len() - 1 - i],
        decreases rest@.len(),
    {
        let item = rest.pop().unwrap();
        reversed.push(item);
    }
    let ghost n = all.len();
    while reversed.len() > 0
        invariant
            reversed@.len() + rows@.len() == n + 1,
            n == all.len(),
            forall|i: int| 0 <= i < reversed@.len() ==> #[trigger] reversed@[i] == all[n - 1 - i],
            rows@.len() >= 1,
            rows@[0] == (MenuRow { label: m.label, icon: m.icon, action: MenuAction::<MenuId, ItemId>::MenuPressed(m.id) }),
            forall|i: int| 0 <= i < rows@.len() - 1 ==> #[trigger] rows@[i + 1] == item_row(all[i]),
        decreases reversed@.len(),
    {
        let item = reversed.pop().unwrap();
        let ghost k = rows@.len() - 1;
        assert(item == all[k]);
        let MenuItem { id, menu_id, label, icon } = item;
        rows.push(MenuRow { label, icon, action: MenuAction::MenuItemPressed { menu_id, menu_item_id: id } });
    }
    rows
}

} // verus!
