//! Keyboard helpers: `Escape` closes the topmost overlay, `F6` and
//! `Shift+F6` cycle between frame-level zones. Other keys are left to the
//! application.

use vstd::prelude::*;

verus! {

/// The keys these helpers tell apart; every other key is `Other`.
#[derive(Debug, Clone, Copy, PartialEq, Eq, Structural)]
pub enum Key {
    Escape,
    F6,
    Enter,
    Tab,
    Other,
}

/// Modifier keys held during a key press.
#[derive(Debug, Clone, Copy, PartialEq, Eq, Structural)]
pub struct Modifiers {
    pub shift: bool,
    pub control: bool,
    pub alt: bool,
    pub logo: bool,
}

impl Modifiers {
    /// No modifier held.
    pub fn empty() -> (m: Modifiers)
        ensures
            !m.shift && !m.control && !m.alt && !m.logo,
    {
        Modifiers { shift: false, control: false, alt: false, logo: false }
    }

    /// These modifiers with `Shift` held too.
    pub fn with_shift(self) -> (m: Modifiers)
        ensures
            m == (Modifiers { shift: true, ..self }),
    {
        Modifiers { shift: true, ..self }
    }

    /// These modifiers with `Control` held too.
    pub fn with_control(self) -> (m: Modifiers)
        ensures
            m == (Modifiers { control: true, ..self }),
    {
        Modifiers { control: true, ..self }
    }
}

/// The direction of a zone cycle.
#[derive(Debug, Clone, Copy, PartialEq, Eq, Structural)]
pub enum Cycle {
    Forward,
    Backward,
}

/// The message `Escape` dismisses with: the modal's when a modal is open
/// (modal before menu), else the menu's when a menu is open, else none.
pub open spec fn spec_dismiss_on_escape<M>(
    has_modal: bool,
    has_menu: bool,
    on_close_modals: Option<M>,
    on_close_menus: Option<M>,
    key: Key,
) -> Option<M> {
    if key != Key::Escape {
        None
    } else if has_modal {
        on_close_modals
    } else if has_menu {
        on_close_menus
    } else {
        None
    }
}

/// Returns the message to emit for `key`, following the dismissal
/// priority: a modal closes before a menu. `None` when the key is not
/// `Escape`, when no overlay is open, or when the overlay that would
/// close has no close message.
pub fn dismiss_on_escape<M>(
    has_modal: bool,
    has_menu: bool,
    on_close_modals: Option<M>,
    on_close_menus: Option<M>,
    key: Key,
) -> (message: Option<M>)
    ensures
        message == spec_dismiss_on_escape(has_modal, has_menu, on_close_modals, on_close_menus, key),
{
    if key != Key::Escape {
        return None;
    }
    if has_modal {
        return on_close_modals;
    }
    if has_menu {
        return on_close_menus;
    }
    None
}

/// The zone cycle bound to `key`: forward for `F6`, backward for
/// `Shift+F6`, none for any other key.
pub open spec fn spec_cycle_zones(key: Key, modifiers: Modifiers) -> Option<Cycle> {
    if key != Key::F6 {
        None
    } else if modifiers.shift {
        Some(Cycle::Backward)
    } else {
        Some(Cycle::Forward)
    }
}

/// Returns the zone cycle for `F6` / `Shift+F6`, or `None` for any other
/// key, so it chains with [`dismiss_on_escape`] without either knowing
/// of the other.
pub fn cycle_zones(key: Key, modifiers: Modifiers) -> (cycle: Option<Cycle>)
    ensures
        cycle == spec_cycle_zones(key, modifiers),
{
    if key != Key::F6 {
        return None;
    }
    if modifiers.shift {
        Some(Cycle::Backward)
    } else {
        Some(Cycle::Forward)
    }
}

/// `Escape` never closes a menu while a modal is open, and the two
/// helpers never both answer the same key press.
pub proof fn modal_before_menu<M>(
    on_close_modals: Option<M>,
    on_close_menus: Option<M>,
    key: Key,
    modifiers: Modifiers,
)
    ensures
        spec_dismiss_on_escape(true, true, on_close_modals, on_close_menus, key)
            == spec_dismiss_on_escape(true, false, on_close_modals, on_close_menus, key),
        spec_dismiss_on_escape(false, false, on_close_modals, on_close_menus, key) is None,
        spec_dismiss_on_escape(true, true, on_close_modals, on_close_menus, key) is None
            || spec_cycle_zones(key, modifiers) is None,
{
}

/// Only `Shift` decides the cycle's direction; `Control`, `Alt` and the
/// logo key held alongside change nothing.
pub proof fn only_shift_decides_direction(key: Key, a: Modifiers, b: Modifiers)
    requires
        a.shift == b.shift,
    ensures
        spec_cycle_zones(key, a) == spec_cycle_zones(key, b),
{
}

/// Only `Escape` dismisses: any other key yields nothing, whatever
/// overlays are open and whatever close messages are given.
pub proof fn only_escape_dismisses<M>(
    has_modal: bool,
    has_menu: bool,
    on_close_modals: Option<M>,
    on_close_menus: Option<M>,
    key: Key,
)
    requires
        key != Key::Escape,
    ensures
        spec_dismiss_on_escape(has_modal, has_menu, on_close_modals, on_close_menus, key) is None,
{
}

/// `Escape` always answers with the close message of the topmost open
/// overlay: the modal's while a modal is open, else the menu's.
pub proof fn escape_closes_the_topmost_overlay<M>(
    has_modal: bool,
    has_menu: bool,
    on_close_modals: Option<M>,
    on_close_menus: Option<M>,
)
    ensures
        has_modal ==> spec_dismiss_on_escape(has_modal, has_menu, on_close_modals, on_close_menus, Key::Escape)
            == on_close_modals,
        !has_modal && has_menu ==> spec_dismiss_on_escape(
            has_modal,
            has_menu,
            on_close_modals,
            on_close_menus,
            Key::Escape,
        ) == on_close_menus,
{
}

/// Only `F6` cycles zones: every other key, `Tab` included, is left to
/// the application whatever modifiers are held; `F6` always cycles, and
/// holding `Shift` reverses the direction.
pub proof fn only_f6_cycles(key: Key, modifiers: Modifiers)
    ensures
        key != Key::F6 ==> spec_cycle_zones(key, modifiers) is None,
        key == Key::F6 ==> spec_cycle_zones(key, modifiers) is Some,
        spec_cycle_zones(Key::F6, Modifiers { shift: true, ..modifiers }) != spec_cycle_zones(
            Key::F6,
            Modifiers { shift: false, ..modifiers },
        ),
        spec_cycle_zones(Key::F6, Modifiers { shift: false, ..modifiers }) == Some(Cycle::Forward),
{
}

} // verus!
