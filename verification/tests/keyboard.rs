use snora::keyboard::{cycle_zones, dismiss_on_escape, Cycle, Key, Modifiers};

const ESC: Key = Key::Escape;
const ENTER: Key = Key::Enter;
const F6: Key = Key::F6;

#[test]
fn non_escape_key_returns_none() {
    assert_eq!(
        dismiss_on_escape(true, true, Some("close_modal"), Some("close_menu"), ENTER),
        None,
    );
}

#[test]
fn no_overlay_returns_none() {
    assert_eq!(dismiss_on_escape(false, false, Some("modal"), Some("menu"), ESC), None);
}

#[test]
fn menu_only_returns_close_menus() {
    assert_eq!(dismiss_on_escape(false, true, Some("modal"), Some("menu"), ESC), Some("menu"));
}

#[test]
fn modal_only_returns_close_modals() {
    assert_eq!(dismiss_on_escape(true, false, Some("modal"), Some("menu"), ESC), Some("modal"));
}

#[test]
fn both_open_modal_takes_priority() {
    assert_eq!(dismiss_on_escape(true, true, Some("modal"), Some("menu"), ESC), Some("modal"));
}

#[test]
fn modal_open_but_no_sink_returns_none() {
    assert_eq!(dismiss_on_escape(true, false, None::<&str>, Some("menu"), ESC), None);
}

#[test]
fn menu_open_but_no_sink_returns_none() {
    assert_eq!(dismiss_on_escape(false, true, Some("modal"), None::<&str>, ESC), None);
}

#[test]
fn f6_without_shift_cycles_forward() {
    assert_eq!(cycle_zones(F6, Modifiers::empty()), Some(Cycle::Forward));
}

#[test]
fn shift_f6_cycles_backward() {
    assert_eq!(cycle_zones(F6, Modifiers::empty().with_shift()), Some(Cycle::Backward));
}

#[test]
fn non_f6_key_returns_none_even_with_shift() {
    assert_eq!(cycle_zones(ESC, Modifiers::empty().with_shift()), None);
    assert_eq!(cycle_zones(ENTER, Modifiers::empty()), None);
}

#[test]
fn other_modifiers_alongside_f6_do_not_change_direction() {
    // Ctrl+F6 (no Shift) is still forward; Ctrl+Shift+F6 is still backward.
    assert_eq!(cycle_zones(F6, Modifiers::empty().with_control()), Some(Cycle::Forward));
    assert_eq!(
        cycle_zones(F6, Modifiers::empty().with_control().with_shift()),
        Some(Cycle::Backward)
    );
}

#[test]
fn alt_and_logo_do_not_change_direction() {
    let alt_logo = Modifiers { shift: false, control: false, alt: true, logo: true };
    assert_eq!(cycle_zones(F6, alt_logo), Some(Cycle::Forward));
    assert_eq!(cycle_zones(F6, Modifiers { shift: true, ..alt_logo }), Some(Cycle::Backward));
}

#[test]
fn escape_and_f6_never_both_answer() {
    for key in [Key::Escape, Key::F6, Key::Enter, Key::Tab, Key::Other] {
        let dismissed = dismiss_on_escape(true, true, Some(1), Some(2), key);
        let cycled = cycle_zones(key, Modifiers::empty());
        assert!(dismissed.is_none() || cycled.is_none());
    }
}

#[test]
fn modifier_builders_set_one_flag() {
    let m = Modifiers::empty();
    assert_eq!(m, Modifiers { shift: false, control: false, alt: false, logo: false });
    assert_eq!(m.with_shift(), Modifiers { shift: true, ..m });
    assert_eq!(m.with_control(), Modifiers { control: true, ..m });
}
