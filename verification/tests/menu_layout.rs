use capsglow::config::{IndicatorTheme, MenuSettings, MonitorSelection, SettingChange};
use capsglow::tray::menu::ids::{Label, MenuKey};
use capsglow::tray::menu::item::{
    create_menu, CheckEntry, ControlRole, MenuEntry, Registration, TrayMenu,
};
use capsglow::tray::menu::MenuGroup;
use capsglow::window::{window_positions, WindowPosition};

fn settings(
    theme: IndicatorTheme,
    monitor: MonitorSelection,
    position: WindowPosition,
) -> MenuSettings {
    MenuSettings { indicator_theme: theme, monitor, window_position: position }
}

fn default_settings() -> MenuSettings {
    settings(IndicatorTheme::FollowIndicatorArea, MonitorSelection::Mouse, WindowPosition::Center)
}

fn submenu_items(menu: &TrayMenu, index: usize) -> &Vec<CheckEntry> {
    match &menu.entries[index] {
        MenuEntry::Submenu { items, .. } => items,
        other => panic!("entry {index} is not a submenu: {other:?}"),
    }
}

fn checked_keys(items: &[CheckEntry]) -> Vec<MenuKey> {
    items.iter().filter(|e| e.checked).map(|e| e.key).collect()
}

#[test]
fn menu_lists_entries_in_display_order() {
    let menu = create_menu(&default_settings(), false);
    assert_eq!(menu.entries.len(), 13);
    assert!(matches!(menu.entries[0], MenuEntry::Submenu { label: Label::SelectMonitor, .. }));
    assert!(matches!(menu.entries[1], MenuEntry::Submenu { label: Label::PositionMenu, .. }));
    assert!(matches!(menu.entries[2], MenuEntry::Submenu { label: Label::Theme, .. }));
    assert_eq!(menu.entries[3], MenuEntry::Separator);
    assert_eq!(menu.entries[4], MenuEntry::Item { key: MenuKey::OpenConfig, label: Label::OpenConfig });
    assert_eq!(menu.entries[5], MenuEntry::Separator);
    assert_eq!(
        menu.entries[6],
        MenuEntry::Check(CheckEntry { key: MenuKey::Startup, label: Label::Startup, checked: false })
    );
    assert_eq!(menu.entries[7], MenuEntry::Separator);
    assert_eq!(menu.entries[8], MenuEntry::Item { key: MenuKey::Restart, label: Label::Restart });
    assert_eq!(menu.entries[9], MenuEntry::Separator);
    assert_eq!(menu.entries[10], MenuEntry::Item { key: MenuKey::About, label: Label::About });
    assert_eq!(menu.entries[11], MenuEntry::Separator);
    assert_eq!(menu.entries[12], MenuEntry::Item { key: MenuKey::Quit, label: Label::Quit });
}

#[test]
fn startup_item_follows_startup_state() {
    let on = create_menu(&default_settings(), true);
    assert_eq!(
        on.entries[6],
        MenuEntry::Check(CheckEntry { key: MenuKey::Startup, label: Label::Startup, checked: true })
    );
}

#[test]
fn monitor_submenu_checks_selected_monitor() {
    let primary = create_menu(
        &settings(IndicatorTheme::FollowSystem, MonitorSelection::Primary, WindowPosition::Top),
        false,
    );
    assert_eq!(
        *submenu_items(&primary, 0),
        vec![
            CheckEntry {
                key: MenuKey::SelectPrimaryMonitor,
                label: Label::SelectPrimaryMonitor,
                checked: true
            },
            CheckEntry {
                key: MenuKey::SelectMouseMonitor,
                label: Label::SelectMouseMonitor,
                checked: false
            },
        ]
    );
    let mouse = create_menu(&default_settings(), false);
    assert_eq!(checked_keys(submenu_items(&mouse, 0)), vec![MenuKey::SelectMouseMonitor]);
}

#[test]
fn theme_submenu_checks_selected_theme() {
    let area = create_menu(&default_settings(), false);
    assert_eq!(
        *submenu_items(&area, 2),
        vec![
            CheckEntry {
                key: MenuKey::FollowIndicatorAreaTheme,
                label: Label::FollowIndicatorAreaTheme,
                checked: true
            },
            CheckEntry {
                key: MenuKey::FollowSystemTheme,
                label: Label::FollowSystemTheme,
                checked: false
            },
        ]
    );
    let system = create_menu(
        &settings(IndicatorTheme::FollowSystem, MonitorSelection::Mouse, WindowPosition::Center),
        false,
    );
    assert_eq!(checked_keys(submenu_items(&system, 2)), vec![MenuKey::FollowSystemTheme]);
}

#[test]
fn position_submenu_lists_every_position_and_checks_one() {
    for p in window_positions() {
        let menu = create_menu(
            &settings(IndicatorTheme::FollowIndicatorArea, MonitorSelection::Mouse, p),
            false,
        );
        let items = submenu_items(&menu, 1);
        assert_eq!(items.len(), 9);
        let keys: Vec<MenuKey> = items.iter().map(|e| e.key).collect();
        let expected: Vec<MenuKey> = window_positions().into_iter().map(MenuKey::Position).collect();
        assert_eq!(keys, expected);
        for e in items {
            match (e.key, e.label) {
                (MenuKey::Position(a), Label::Position(b)) => assert_eq!(a, b),
                other => panic!("unexpected position entry {other:?}"),
            }
        }
        assert_eq!(checked_keys(items), vec![MenuKey::Position(p)]);
    }
}

#[test]
fn window_positions_in_menu_order() {
    assert_eq!(
        window_positions(),
        vec![
            WindowPosition::Center,
            WindowPosition::Left,
            WindowPosition::Right,
            WindowPosition::Top,
            WindowPosition::Bottom,
            WindowPosition::TopLeft,
            WindowPosition::TopRight,
            WindowPosition::BottomLeft,
            WindowPosition::BottomRight,
        ]
    );
}

#[test]
fn registrations_in_creation_order() {
    let menu = create_menu(&default_settings(), true);
    let r = &menu.registrations;
    assert_eq!(r.len(), 18);
    assert_eq!(r[0], Registration { key: MenuKey::About, role: ControlRole::Normal });
    assert_eq!(r[1], Registration { key: MenuKey::Quit, role: ControlRole::Normal });
    assert_eq!(r[2], Registration { key: MenuKey::Restart, role: ControlRole::Normal });
    assert_eq!(r[3], Registration { key: MenuKey::Startup, role: ControlRole::Separate });
    assert_eq!(r[4], Registration { key: MenuKey::OpenConfig, role: ControlRole::Normal });
    let theme = ControlRole::Radio {
        default: MenuKey::FollowIndicatorAreaTheme,
        group: MenuGroup::RadioIndicatorIconTheme,
    };
    assert_eq!(r[5], Registration { key: MenuKey::FollowIndicatorAreaTheme, role: theme });
    assert_eq!(r[6], Registration { key: MenuKey::FollowSystemTheme, role: theme });
    for (i, p) in window_positions().into_iter().enumerate() {
        assert_eq!(
            r[7 + i],
            Registration {
                key: MenuKey::Position(p),
                role: ControlRole::Radio {
                    default: MenuKey::FollowIndicatorAreaTheme,
                    group: MenuGroup::RadioWindowPosition,
                },
            }
        );
    }
    let monitor = ControlRole::Radio {
        default: MenuKey::SelectMouseMonitor,
        group: MenuGroup::RadioMonitorSelector,
    };
    assert_eq!(r[16], Registration { key: MenuKey::SelectPrimaryMonitor, role: monitor });
    assert_eq!(r[17], Registration { key: MenuKey::SelectMouseMonitor, role: monitor });
}

#[test]
fn registered_ids_are_distinct() {
    let menu = create_menu(&default_settings(), false);
    let ids: Vec<&str> = menu.registrations.iter().map(|r| r.key.id()).collect();
    for i in 0..ids.len() {
        for j in 0..ids.len() {
            if i != j {
                assert_ne!(ids[i], ids[j]);
            }
        }
    }
}

#[test]
fn every_menu_item_is_registered() {
    let menu = create_menu(&default_settings(), false);
    let mut shown = Vec::new();
    for e in &menu.entries {
        match e {
            MenuEntry::Item { key, .. } => shown.push(*key),
            MenuEntry::Check(c) => shown.push(c.key),
            MenuEntry::Submenu { items, .. } => shown.extend(items.iter().map(|c| c.key)),
            MenuEntry::Separator => {}
        }
    }
    assert_eq!(shown.len(), menu.registrations.len());
    for key in shown {
        assert!(menu.registrations.iter().any(|r| r.key == key));
    }
}

#[test]
fn apply_changes_one_setting() {
    let mut s = default_settings();
    s.apply(SettingChange::WindowPosition(WindowPosition::BottomLeft));
    assert_eq!(
        s,
        settings(IndicatorTheme::FollowIndicatorArea, MonitorSelection::Mouse, WindowPosition::BottomLeft)
    );
    s.apply(SettingChange::SystemTheme);
    assert_eq!(s.indicator_theme, IndicatorTheme::FollowSystem);
    s.apply(SettingChange::IndicatorAreaTheme);
    assert_eq!(s.indicator_theme, IndicatorTheme::FollowIndicatorArea);
    s.apply(SettingChange::PrimaryMonitor);
    assert_eq!(s.monitor, MonitorSelection::Primary);
    s.apply(SettingChange::MouseMonitor);
    assert_eq!(s.monitor, MonitorSelection::Mouse);
    assert_eq!(s.window_position, WindowPosition::BottomLeft);
}
