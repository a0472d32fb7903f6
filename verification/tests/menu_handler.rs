use capsglow::config::{IndicatorTheme, MenuSettings, MonitorSelection, SettingChange};
use capsglow::events::AppEvent;
use capsglow::tray::menu::handler::{ClickedControl, ControlKind, MenuAction, MenuError, MenuHandler};
use capsglow::tray::menu::ids::{str_eq, MenuKey};
use capsglow::tray::menu::item::{create_menu, ControlRole, MenuEntry};
use capsglow::tray::menu::MenuGroup;
use capsglow::window::{window_positions, WindowPosition};

fn click(kind: ControlKind, id: &str) -> Result<MenuAction, MenuError> {
    MenuHandler::new(ClickedControl { kind, id: id.to_string() }).run()
}

fn all_keys() -> Vec<MenuKey> {
    let mut keys = vec![
        MenuKey::Quit,
        MenuKey::About,
        MenuKey::Restart,
        MenuKey::Startup,
        MenuKey::OpenConfig,
        MenuKey::FollowIndicatorAreaTheme,
        MenuKey::FollowSystemTheme,
        MenuKey::SelectMouseMonitor,
        MenuKey::SelectPrimaryMonitor,
    ];
    keys.extend(window_positions().into_iter().map(MenuKey::Position));
    keys
}

#[test]
fn menu_ids_are_the_registry_strings() {
    assert_eq!(MenuKey::Quit.id(), "quit");
    assert_eq!(MenuKey::About.id(), "about");
    assert_eq!(MenuKey::Restart.id(), "restart");
    assert_eq!(MenuKey::Startup.id(), "startup");
    assert_eq!(MenuKey::OpenConfig.id(), "open_config");
    assert_eq!(MenuKey::FollowIndicatorAreaTheme.id(), "follow_indicator_area_theme");
    assert_eq!(MenuKey::FollowSystemTheme.id(), "follow_system_theme");
    assert_eq!(MenuKey::SelectMouseMonitor.id(), "select_mouse_monitor");
    assert_eq!(MenuKey::SelectPrimaryMonitor.id(), "select_primary_monitor");
    assert_eq!(MenuKey::Position(WindowPosition::Center).id(), "position_center");
    assert_eq!(MenuKey::Position(WindowPosition::BottomRight).id(), "position_bottom_right");
    assert_eq!(MenuKey::Position(WindowPosition::TopLeft).id(), "position_top_left");
}

#[test]
fn ids_read_back_to_their_entry() {
    for k in all_keys() {
        assert_eq!(MenuKey::from_id(k.id()), Some(k));
    }
    assert_eq!(MenuKey::from_id("quit "), None);
    assert_eq!(MenuKey::from_id(""), None);
    assert_eq!(MenuKey::from_id("Quit"), None);
    assert_eq!(MenuKey::from_id("position"), None);
}

#[test]
fn str_eq_compares_characters() {
    assert!(str_eq("abc", "abc"));
    assert!(str_eq("", ""));
    assert!(!str_eq("abc", "abd"));
    assert!(!str_eq("abc", "ab"));
    assert!(str_eq("größe", "größe"));
    assert!(!str_eq("größe", "grosse"));
}

#[test]
fn normal_items_send_their_events() {
    assert_eq!(click(ControlKind::MenuItem, "quit"), Ok(MenuAction::SendEvent(AppEvent::Exit)));
    assert_eq!(
        click(ControlKind::MenuItem, "about"),
        Ok(MenuAction::SendEvent(AppEvent::ShowAboutDialog))
    );
    assert_eq!(click(ControlKind::MenuItem, "restart"), Ok(MenuAction::SendEvent(AppEvent::Restart)));
    assert_eq!(click(ControlKind::MenuItem, "open_config"), Ok(MenuAction::OpenConfigFile));
}

#[test]
fn unknown_normal_item_is_an_error() {
    let r = click(ControlKind::MenuItem, "startup");
    assert_eq!(r, Err(MenuError::NoMatchNormalMenu("startup".to_string())));
    assert_eq!(r.unwrap_err().message(), "No match normal menu: startup");
}

#[test]
fn startup_check_sets_startup_to_its_state() {
    assert_eq!(
        click(ControlKind::Separate { checked: true }, "startup"),
        Ok(MenuAction::SetStartup(true))
    );
    assert_eq!(
        click(ControlKind::Separate { checked: false }, "startup"),
        Ok(MenuAction::SetStartup(false))
    );
    let r = click(ControlKind::Separate { checked: true }, "quit");
    assert_eq!(r, Err(MenuError::NoMatchCheckMenu("quit".to_string())));
    assert_eq!(r.unwrap_err().message(), "No match single check menu: quit");
}

#[test]
fn check_box_groups_and_icon_items_are_errors() {
    let r = click(ControlKind::CheckBox { group: MenuGroup::RadioWindowPosition }, "x");
    assert_eq!(r, Err(MenuError::UnsupportedCheckGroup("x".to_string())));
    assert_eq!(r.unwrap_err().message(), "Not support check menu group: x");
    let r = click(ControlKind::IconMenu, "quit");
    assert_eq!(r, Err(MenuError::IconMenu));
    assert_eq!(r.unwrap_err().message(), "None icon menu");
}

#[test]
fn theme_radio_changes_theme_and_redraws() {
    let g = ControlKind::Radio { group: MenuGroup::RadioIndicatorIconTheme };
    assert_eq!(
        click(g, "follow_indicator_area_theme"),
        Ok(MenuAction::UpdateSettings {
            change: Some(SettingChange::IndicatorAreaTheme),
            then: AppEvent::RedrawRequested
        })
    );
    assert_eq!(
        click(g, "follow_system_theme"),
        Ok(MenuAction::UpdateSettings {
            change: Some(SettingChange::SystemTheme),
            then: AppEvent::RedrawRequested
        })
    );
    assert_eq!(
        click(g, "position_left"),
        Ok(MenuAction::UpdateSettings { change: None, then: AppEvent::RedrawRequested })
    );
}

#[test]
fn monitor_radio_changes_monitor_and_moves() {
    let g = ControlKind::Radio { group: MenuGroup::RadioMonitorSelector };
    assert_eq!(
        click(g, "select_mouse_monitor"),
        Ok(MenuAction::UpdateSettings {
            change: Some(SettingChange::MouseMonitor),
            then: AppEvent::MoveWindow
        })
    );
    assert_eq!(
        click(g, "select_primary_monitor"),
        Ok(MenuAction::UpdateSettings {
            change: Some(SettingChange::PrimaryMonitor),
            then: AppEvent::MoveWindow
        })
    );
    assert_eq!(
        click(g, "quit"),
        Ok(MenuAction::UpdateSettings { change: None, then: AppEvent::MoveWindow })
    );
}

#[test]
fn position_radio_moves_to_its_position() {
    let g = ControlKind::Radio { group: MenuGroup::RadioWindowPosition };
    for p in window_positions() {
        assert_eq!(
            click(g, MenuKey::Position(p).id()),
            Ok(MenuAction::UpdateSettings {
                change: Some(SettingChange::WindowPosition(p)),
                then: AppEvent::MoveWindow
            })
        );
    }
    assert_eq!(click(g, "position_middle"), Ok(MenuAction::Nothing));
    assert_eq!(click(g, "follow_indicator_area_theme"), Ok(MenuAction::Nothing));
}

fn kind_for(role: ControlRole, checked: bool) -> ControlKind {
    match role {
        ControlRole::Normal => ControlKind::MenuItem,
        ControlRole::Separate => ControlKind::Separate { checked },
        ControlRole::Radio { group, .. } => ControlKind::Radio { group },
    }
}

#[test]
fn every_registered_entry_is_handled() {
    let s = MenuSettings {
        indicator_theme: IndicatorTheme::FollowSystem,
        monitor: MonitorSelection::Primary,
        window_position: WindowPosition::Right,
    };
    let menu = create_menu(&s, true);
    for r in &menu.registrations {
        for checked in [false, true] {
            assert!(click(kind_for(r.role, checked), r.key.id()).is_ok(), "{r:?}");
        }
    }
}

#[test]
fn clicking_a_radio_entry_selects_it_in_the_rebuilt_menu() {
    let s = MenuSettings {
        indicator_theme: IndicatorTheme::FollowIndicatorArea,
        monitor: MonitorSelection::Mouse,
        window_position: WindowPosition::Center,
    };
    let menu = create_menu(&s, false);
    for r in &menu.registrations {
        let ControlRole::Radio { group, .. } = r.role else { continue };
        let Ok(MenuAction::UpdateSettings { change: Some(change), .. }) =
            click(ControlKind::Radio { group }, r.key.id())
        else {
            panic!("radio entry {r:?} asks for no change");
        };
        let mut next = s;
        next.apply(change);
        let rebuilt = create_menu(&next, false);
        let index = match group {
            MenuGroup::RadioMonitorSelector => 0,
            MenuGroup::RadioWindowPosition => 1,
            MenuGroup::RadioIndicatorIconTheme => 2,
        };
        let MenuEntry::Submenu { items, .. } = &rebuilt.entries[index] else { panic!() };
        let checked: Vec<MenuKey> = items.iter().filter(|e| e.checked).map(|e| e.key).collect();
        assert_eq!(checked, vec![r.key]);
    }
}
