use snora::chrome::{
    header_view, side_bar_view, tab_bar_view, HeaderGroup, HeaderPart, SideBar, SideBarItem, Tab, TabAction, TabBar,
    TabBarGroup, TITLE_SPACER,
};
use snora::menu::Menu;
use snora::toast::Horizontal;
use snora::widgets::{breadcrumb_items, BreadcrumbAction, Crumb, CrumbItem};
use snora::LayoutDirection;

fn item(view_id: u8, tooltip: &str, on_press: char) -> SideBarItem<char, u8, &'static str> {
    SideBarItem { view_id, icon: "i", tooltip: tooltip.to_string(), on_press }
}

#[test]
fn rail_marks_only_the_active_view() {
    let bar = SideBar { items: vec![item(1, "Home", 'h'), item(2, "Files", 'f'), item(3, "Settings", 's')], active: 2 };
    let view = side_bar_view(bar, LayoutDirection::Ltr);
    assert_eq!(view.tooltip_side, Horizontal::Right);
    let summary: Vec<(String, char, bool)> =
        view.buttons.iter().map(|b| (b.tooltip.clone(), b.on_press, b.active)).collect();
    assert_eq!(
        summary,
        vec![("Home".to_string(), 'h', false), ("Files".to_string(), 'f', true), ("Settings".to_string(), 's', false)]
    );
}

#[test]
fn rail_tooltips_open_on_the_end_side_and_keep_item_order() {
    let bar = SideBar { items: vec![item(1, "a", 'a'), item(2, "b", 'b')], active: 9 };
    let view = side_bar_view(bar, LayoutDirection::Rtl);
    assert_eq!(view.tooltip_side, Horizontal::Left);
    assert!(view.buttons.iter().all(|b| !b.active));
    assert_eq!(view.buttons.iter().map(|b| b.on_press).collect::<Vec<_>>(), vec!['a', 'b']);
    let empty = side_bar_view(SideBar::<char, u8, &str> { items: vec![], active: 0 }, LayoutDirection::Ltr);
    assert!(empty.buttons.is_empty());
}

fn menu(id: u8, label: &str) -> Menu<u8, u8, &'static str> {
    Menu { id, label: label.to_string(), icon: None, items: vec![] }
}

fn parts(parts: &[HeaderPart<&'static str, u8, u8, &'static str>]) -> Vec<String> {
    parts
        .iter()
        .map(|part| match part {
            HeaderPart::Title => "title".to_string(),
            HeaderPart::Spacer(width) => format!("spacer {width}"),
            HeaderPart::Menu(entry) => format!("menu {} open={}", entry.menu.label, entry.is_active),
            HeaderPart::Filler => "filler".to_string(),
            HeaderPart::Controls(controls) => format!("controls {controls}"),
        })
        .collect()
}

#[test]
fn header_opens_only_the_active_menu_and_mirrors_its_groups() {
    let view = header_view(vec![menu(1, "File"), menu(2, "View")], Some(&2), Some("controls"), LayoutDirection::Ltr);
    assert_eq!(view.groups, vec![HeaderGroup::Start, HeaderGroup::End]);
    assert_eq!(
        parts(&view.start),
        vec!["title", "spacer 20", "menu File open=false", "menu View open=true"]
    );
    assert_eq!(parts(&view.end), vec!["filler", "controls controls"]);

    let rtl = header_view::<&str, u8, u8, &str>(vec![menu(1, "File")], None, None, LayoutDirection::Rtl);
    assert_eq!(rtl.groups, vec![HeaderGroup::End, HeaderGroup::Start]);
    assert_eq!(parts(&rtl.start), vec!["title", "spacer 20", "menu File open=false"]);
    assert_eq!(parts(&rtl.end), vec!["filler"]);
}

#[test]
fn header_pins_the_end_controls_to_the_end_edge() {
    let rtl = header_view(vec![menu(1, "File")], Some(&1), Some("controls"), LayoutDirection::Rtl);
    assert_eq!(rtl.groups, vec![HeaderGroup::End, HeaderGroup::Start]);
    assert_eq!(parts(&rtl.end), vec!["controls controls", "filler"]);
    assert_eq!(parts(&rtl.start), vec!["title", "spacer 20", "menu File open=true"]);
    assert_eq!(TITLE_SPACER, 20);
}

fn tab(id: u8, label: &str) -> Tab<u8, &'static str> {
    Tab { id, label: label.to_string(), icon: None }
}

#[test]
fn tab_bar_follows_the_reading_order() {
    let bar = TabBar { tabs: vec![tab(1, "One"), tab(2, "Two"), tab(3, "Three")], active: 1 };
    let view = tab_bar_view(bar, LayoutDirection::Ltr);
    assert_eq!(view.groups, vec![TabBarGroup::Tabs, TabBarGroup::Filler]);
    let tabs: Vec<(String, bool, TabAction<u8>)> =
        view.tabs.iter().map(|t| (t.label.clone(), t.is_active, t.action.clone())).collect();
    assert_eq!(
        tabs,
        vec![
            ("One".to_string(), true, TabAction::Pressed(1)),
            ("Two".to_string(), false, TabAction::Pressed(2)),
            ("Three".to_string(), false, TabAction::Pressed(3)),
        ]
    );

    let bar = TabBar { tabs: vec![tab(1, "One"), tab(2, "Two")], active: 2 };
    let view = tab_bar_view(bar, LayoutDirection::Rtl);
    assert_eq!(view.groups, vec![TabBarGroup::Filler, TabBarGroup::Tabs]);
    let labels: Vec<(String, bool)> = view.tabs.iter().map(|t| (t.label.clone(), t.is_active)).collect();
    assert_eq!(labels, vec![("Two".to_string(), true), ("One".to_string(), false)]);
}

fn crumb(id: u8, label: &str, is_leaf: bool) -> Crumb<u8> {
    Crumb { id, label: label.to_string(), is_leaf }
}

fn describe(items: &[CrumbItem<u8>]) -> Vec<String> {
    items
        .iter()
        .map(|item| match item {
            CrumbItem::Text(label) => format!("text {label}"),
            CrumbItem::Button { label, action: BreadcrumbAction::Pressed(id) } => format!("button {label} -> {id}"),
            CrumbItem::Separator(glyph) => glyph.to_string(),
        })
        .collect()
}

#[test]
fn breadcrumb_leaf_is_text_and_ancestors_report_their_ids() {
    let crumbs = vec![crumb(1, "Home", false), crumb(2, "Docs", false), crumb(3, "Page", true)];
    let ltr = breadcrumb_items(crumbs, LayoutDirection::Ltr);
    assert_eq!(describe(&ltr), vec!["button Home -> 1", "›", "button Docs -> 2", "›", "text Page"]);

    let crumbs = vec![crumb(1, "Home", false), crumb(3, "Page", true)];
    let rtl = breadcrumb_items(crumbs, LayoutDirection::Rtl);
    assert_eq!(describe(&rtl), vec!["text Page", "‹", "button Home -> 1"]);

    assert!(breadcrumb_items(Vec::<Crumb<u8>>::new(), LayoutDirection::Ltr).is_empty());
}
