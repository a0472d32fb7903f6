use super::ids::{Label, MenuKey};
use super::MenuGroup;
use crate::config::{IndicatorTheme, MenuSettings, MonitorSelection};
use crate::window::{spec_window_positions, window_positions, WindowPosition};
use vstd::prelude::*;

verus! {

/// A check item: its id, its text and whether it starts checked.
#[derive(Clone, Copy, PartialEq, Eq, Structural, Debug)]
pub struct CheckEntry {
    pub key: MenuKey,
    pub label: Label,
    pub checked: bool,
}

/// An entry of the tray menu, in the order in which the menu shows it.
#[derive(Debug, PartialEq, Eq)]
pub enum MenuEntry {
    /// A plain, enabled menu item.
    Item { key: MenuKey, label: Label },
    /// A check item at the top level of the menu.
    Check(CheckEntry),
    /// A submenu of check items.
    Submenu { label: Label, items: Vec<CheckEntry> },
    /// A separator line.
    Separator,
}

/// The mathematical form of a menu entry.
pub enum MenuEntryView {
    Item { key: MenuKey, label: Label },
    Check(CheckEntry),
    Submenu { label: Label, items: Seq<CheckEntry> },
    Separator,
}

impl View for MenuEntry {
    type V = MenuEntryView;

    open spec fn view(&self) -> MenuEntryView {
        match self {
            MenuEntry::Item { key, label } => MenuEntryView::Item { key: *key, label: *label },
            MenuEntry::Check(c) => MenuEntryView::Check(*c),
            MenuEntry::Submenu { label, items } => MenuEntryView::Submenu {
                label: *label,
                items: items@,
            },
            MenuEntry::Separator => MenuEntryView::Separator,
        }
    }
}

/// How an entry is registered with the menu registry, which routes clicks to controls.
#[derive(Clone, Copy, PartialEq, Eq, Structural, Debug)]
pub enum ControlRole {
    /// A plain menu item.
    Normal,
    /// A stand-alone check item.
    Separate,
    /// A member of a radio group, with the entry that the group falls back to when a click
    /// leaves every member unchecked.
    Radio { default: MenuKey, group: MenuGroup },
}

/// One registration with the menu registry.
#[derive(Clone, Copy, PartialEq, Eq, Structural, Debug)]
pub struct Registration {
    pub key: MenuKey,
    pub role: ControlRole,
}

/// The tray menu: its entries in display order, and the registrations, in the order in
/// which they are made.
#[derive(Debug, PartialEq, Eq)]
pub struct TrayMenu {
    pub entries: Vec<MenuEntry>,
    pub registrations: Vec<Registration>,
}

/// The check items of the theme submenu.
pub open spec fn spec_theme_items(s: MenuSettings) -> Seq<CheckEntry> {
    seq![
        CheckEntry {
            key: MenuKey::FollowIndicatorAreaTheme,
            label: Label::FollowIndicatorAreaTheme,
            checked: s.indicator_theme == IndicatorTheme::FollowIndicatorArea,
        },
        CheckEntry {
            key: MenuKey::FollowSystemTheme,
            label: Label::FollowSystemTheme,
            checked: s.indicator_theme == IndicatorTheme::FollowSystem,
        },
    ]
}

/// The check item of the position submenu for `p`.
pub open spec fn spec_position_item(s: MenuSettings, p: WindowPosition) -> CheckEntry {
    CheckEntry {
        key: MenuKey::Position(p),
        label: Label::Position(p),
        checked: s.window_position == p,
    }
}

/// The check items of the position submenu.
pub open spec fn spec_position_items(s: MenuSettings) -> Seq<CheckEntry> {
    spec_window_positions().map_values(|p: WindowPosition| spec_position_item(s, p))
}

/// The check items of the monitor submenu.
pub open spec fn spec_monitor_items(s: MenuSettings) -> Seq<CheckEntry> {
    seq![
        CheckEntry {
            key: MenuKey::SelectPrimaryMonitor,
            label: Label::SelectPrimaryMonitor,
            checked: s.monitor == MonitorSelection::Primary,
        },
        CheckEntry {
            key: MenuKey::SelectMouseMonitor,
            label: Label::SelectMouseMonitor,
            checked: s.monitor == MonitorSelection::Mouse,
        },
    ]
}

/// The entries of the tray menu, top to bottom.
pub open spec fn spec_menu_entries(s: MenuSettings, should_startup: bool) -> Seq<MenuEntryView> {
    seq![
        MenuEntryView::Submenu { label: Label::SelectMonitor, items: spec_monitor_items(s) },
        MenuEntryView::Submenu { label: Label::PositionMenu, items: spec_position_items(s) },
        MenuEntryView::Submenu { label: Label::Theme, items: spec_theme_items(s) },
        MenuEntryView::Separator,
        MenuEntryView::Item { key: MenuKey::OpenConfig, label: Label::OpenConfig },
        MenuEntryView::Separator,
        MenuEntryView::Check(
            CheckEntry { key: MenuKey::Startup, label: Label::Startup, checked: should_startup },
        ),
        MenuEntryView::Separator,
        MenuEntryView::Item { key: MenuKey::Restart, label: Label::Restart },
        MenuEntryView::Separator,
        MenuEntryView::Item { key: MenuKey::About, label: Label::About },
        MenuEntryView::Separator,
        MenuEntryView::Item { key: MenuKey::Quit, label: Label::Quit },
    ]
}

/// A registration of a radio member.
pub open spec fn radio(key: MenuKey, default: MenuKey, group: MenuGroup) -> Registration {
    Registration { key, role: ControlRole::Radio { default, group } }
}

/// The registration of the position entry for `p`.
pub open spec fn spec_position_registration(p: WindowPosition) -> Registration {
    radio(MenuKey::Position(p), MenuKey::FollowIndicatorAreaTheme, MenuGroup::RadioWindowPosition)
}

/// The registrations of the theme submenu.
pub open spec fn spec_theme_registrations() -> Seq<Registration> {
    seq![
        radio(
            MenuKey::FollowIndicatorAreaTheme,
            MenuKey::FollowIndicatorAreaTheme,
            MenuGroup::RadioIndicatorIconTheme,
        ),
        radio(
            MenuKey::FollowSystemTheme,
            MenuKey::FollowIndicatorAreaTheme,
            MenuGroup::RadioIndicatorIconTheme,
        ),
    ]
}

/// The registrations of the position submenu.
pub open spec fn spec_position_registrations() -> Seq<Registration> {
    spec_window_positions().map_values(|p: WindowPosition| spec_position_registration(p))
}

/// The registrations of the monitor submenu.
pub open spec fn spec_monitor_registrations() -> Seq<Registration> {
    seq![
        radio(
            MenuKey::SelectPrimaryMonitor,
            MenuKey::SelectMouseMonitor,
            MenuGroup::RadioMonitorSelector,
        ),
        radio(
            MenuKey::SelectMouseMonitor,
            MenuKey::SelectMouseMonitor,
            MenuGroup::RadioMonitorSelector,
        ),
    ]
}

/// The registrations that building the tray menu makes, in order.
pub open spec fn spec_registrations() -> Seq<Registration> {
    seq![
        Registration { key: MenuKey::About, role: ControlRole::Normal },
        Registration { key: MenuKey::Quit, role: ControlRole::Normal },
        Registration { key: MenuKey::Restart, role: ControlRole::Normal },
        Registration { key: MenuKey::Startup, role: ControlRole::Separate },
        Registration { key: MenuKey::OpenConfig, role: ControlRole::Normal },
    ] + spec_theme_registrations() + spec_position_registrations() + spec_monitor_registrations()
}

/// Builds the entries of the menu and records their registrations.
struct CreateMenuItem(Vec<Registration>);

impl CreateMenuItem {
    fn new() -> (r: Self)
        ensures
            r.0@ == Seq::<Registration>::empty(),
    {
        CreateMenuItem(Vec::new())
    }

    fn separator() -> (r: MenuEntry)
        ensures
            r@ == MenuEntryView::Separator,
    {
        MenuEntry::Separator
    }

    fn normal_item(&mut self, key: MenuKey, label: Label) -> (r: MenuEntry)
        ensures
            r@ == (MenuEntryView::Item { key, label }),
            final(self).0@ == old(self).0@.push(Registration { key, role: ControlRole::Normal }),
    {
        self.0.push(Registration { key, role: ControlRole::Normal });
        MenuEntry::Item { key, label }
    }

    fn quit(&mut self) -> (r: MenuEntry)
        ensures
            r@ == (MenuEntryView::Item { key: MenuKey::Quit, label: Label::Quit }),
            final(self).0@ == old(self).0@.push(
                Registration { key: MenuKey::Quit, role: ControlRole::Normal },
            ),
    {
        self.normal_item(MenuKey::Quit, Label::Quit)
    }

    fn about(&mut self) -> (r: MenuEntry)
        ensures
            r@ == (MenuEntryView::Item { key: MenuKey::About, label: Label::About }),
            final(self).0@ == old(self).0@.push(
                Registration { key: MenuKey::About, role: ControlRole::Normal },
            ),
    {
        self.normal_item(MenuKey::About, Label::About)
    }

    fn restart(&mut self) -> (r: MenuEntry)
        ensures
            r@ == (MenuEntryView::Item { key: MenuKey::Restart, label: Label::Restart }),
            final(self).0@ == old(self).0@.push(
                Registration { key: MenuKey::Restart, role: ControlRole::Normal },
            ),
    {
        self.normal_item(MenuKey::Restart, Label::Restart)
    }

    fn open_config(&mut self) -> (r: MenuEntry)
        ensures
            r@ == (MenuEntryView::Item { key: MenuKey::OpenConfig, label: Label::OpenConfig }),
            final(self).0@ == old(self).0@.push(
                Registration { key: MenuKey::OpenConfig, role: ControlRole::Normal },
            ),
    {
        self.normal_item(MenuKey::OpenConfig, Label::OpenConfig)
    }

    fn startup(&mut self, should_startup: bool) -> (r: MenuEntry)
        ensures
            r@ == MenuEntryView::Check(
                CheckEntry { key: MenuKey::Startup, label: Label::Startup, checked: should_startup },
            ),
            final(self).0@ == old(self).0@.push(
                Registration { key: MenuKey::Startup, role: ControlRole::Separate },
            ),
    {
        self.0.push(Registration { key: MenuKey::Startup, role: ControlRole::Separate });
        MenuEntry::Check(
            CheckEntry { key: MenuKey::Startup, label: Label::Startup, checked: should_startup },
        )
    }

    fn indicator_theme(&mut self, settings: &MenuSettings) -> (r: MenuEntry)
        ensures
            r@ == (MenuEntryView::Submenu { label: Label::Theme, items: spec_theme_items(*settings) }),
            final(self).0@ == old(self).0@ + spec_theme_registrations(),
    {
        let follow_area = CheckEntry {
            key: MenuKey::FollowIndicatorAreaTheme,
            label: Label::FollowIndicatorAreaTheme,
            checked: settings.indicator_theme == IndicatorTheme::FollowIndicatorArea,
        };
        let follow_system = CheckEntry {
            key: MenuKey::FollowSystemTheme,
            label: Label::FollowSystemTheme,
            checked: settings.indicator_theme == IndicatorTheme::FollowSystem,
        };
        self.0.push(
            Registration {
                key: MenuKey::FollowIndicatorAreaTheme,
                role: ControlRole::Radio {
                    default: MenuKey::FollowIndicatorAreaTheme,
                    group: MenuGroup::RadioIndicatorIconTheme,
                },
            },
        );
        self.0.push(
            Registration {
                key: MenuKey::FollowSystemTheme,
                role: ControlRole::Radio {
                    default: MenuKey::FollowIndicatorAreaTheme,
                    group: MenuGroup::RadioIndicatorIconTheme,
                },
            },
        );
        let items = vec![follow_area, follow_system];
        assert(items@ =~= spec_theme_items(*settings));
        assert(self.0@ =~= old(self).0@ + spec_theme_registrations());
        MenuEntry::Submenu { label: Label::Theme, items }
    }

    fn window_postion(&mut self, settings: &MenuSettings) -> (r: MenuEntry)
        ensures
            r@ == (MenuEntryView::Submenu {
                label: Label::PositionMenu,
                items: spec_position_items(*settings),
            }),
            final(self).0@ == old(self).0@ + spec_position_registrations(),
    {
        let positions = window_positions();
        let mut items: Vec<CheckEntry> = Vec::new();
        let ghost start = self.0@;
        let mut i: usize = 0;
        while i < positions.len()
            invariant
                positions@ == spec_window_positions(),
                i <= positions.len(),
                items@.len() == i,
                forall|j: int|
                    0 <= j < i ==> #[trigger] items@[j] == spec_position_item(
                        *settings,
                        positions@[j],
                    ),
                self.0@.len() == start.len() + i,
                forall|j: int| 0 <= j < start.len() ==> #[trigger] self.0@[j] == start[j],
                forall|j: int|
                    0 <= j < i ==> #[trigger] self.0@[start.len() + j]
                        == spec_position_registration(positions@[j]),
            decreases positions.len() - i,
        {
            let p = positions[i];
            items.push(
                CheckEntry {
                    key: MenuKey::Position(p),
                    label: Label::Position(p),
                    checked: settings.window_position == p,
                },
            );
            self.0.push(
                Registration {
                    key: MenuKey::Position(p),
                    role: ControlRole::Radio {
                        default: MenuKey::FollowIndicatorAreaTheme,
                        group: MenuGroup::RadioWindowPosition,
                    },
                },
            );
            i = i + 1;
        }
        assert(items@ =~= spec_position_items(*settings));
        assert(self.0@ =~= start + spec_position_registrations()) by {
            assert forall|j: int| start.len() <= j < self.0@.len() implies self.0@[j] == (start
                + spec_position_registrations())[j] by {
                let k = j - start.len();
                assert(self.0@[start.len() + k] == spec_position_registration(positions@[k]));
            }
        }
        MenuEntry::Submenu { label: Label::PositionMenu, items }
    }

    fn select_monitor(&mut self, settings: &MenuSettings) -> (r: MenuEntry)
        ensures
            r@ == (MenuEntryView::Submenu {
                label: Label::SelectMonitor,
                items: spec_monitor_items(*settings),
            }),
            final(self).0@ == old(self).0@ + spec_monitor_registrations(),
    {
        let select_primary = CheckEntry {
            key: MenuKey::SelectPrimaryMonitor,
            label: Label::SelectPrimaryMonitor,
            checked: settings.monitor == MonitorSelection::Primary,
        };
        let select_mouse = CheckEntry {
            key: MenuKey::SelectMouseMonitor,
            label: Label::SelectMouseMonitor,
            checked: settings.monitor == MonitorSelection::Mouse,
        };
        self.0.push(
            Registration {
                key: MenuKey::SelectPrimaryMonitor,
                role: ControlRole::Radio {
                    default: MenuKey::SelectMouseMonitor,
                    group: MenuGroup::RadioMonitorSelector,
                },
            },
        );
        self.0.push(
            Registration {
                key: MenuKey::SelectMouseMonitor,
                role: ControlRole::Radio {
                    default: MenuKey::SelectMouseMonitor,
                    group: MenuGroup::RadioMonitorSelector,
                },
            },
        );
        let items = vec![select_primary, select_mouse];
        assert(items@ =~= spec_monitor_items(*settings));
        assert(self.0@ =~= old(self).0@ + spec_monitor_registrations());
        MenuEntry::Submenu { label: Label::SelectMonitor, items }
    }
}

/// Builds the tray menu for the given settings and start-with-system state.
pub fn create_menu(settings: &MenuSettings, should_startup: bool) -> (r: TrayMenu)
    ensures
        r.entries@.map_values(|e: MenuEntry| e@) == spec_menu_entries(*settings, should_startup),
        r.registrations@ == spec_registrations(),
{
    let mut create_menu_item = CreateMenuItem::new();
    let menu_about = create_menu_item.about();
    let menu_quit = create_menu_item.quit();
    let menu_restart = create_menu_item.restart();
    let menu_startup = create_menu_item.startup(should_startup);
    let menu_open_config = create_menu_item.open_config();
    let menu_indicator_theme = create_menu_item.indicator_theme(settings);
    let menu_window_position = create_menu_item.window_postion(settings);
    let menu_select_monitor = create_menu_item.select_monitor(settings);

    let mut entries: Vec<MenuEntry> = Vec::new();
    entries.push(menu_select_monitor);
    entries.push(menu_window_position);
    entries.push(menu_indicator_theme);
    entries.push(CreateMenuItem::separator());
    entries.push(menu_open_config);
    entries.push(CreateMenuItem::separator());
    entries.push(menu_startup);
    entries.push(CreateMenuItem::separator());
    entries.push(menu_restart);
    entries.push(CreateMenuItem::separator());
    entries.push(menu_about);
    entries.push(CreateMenuItem::separator());
    entries.push(menu_quit);

    let registrations = create_menu_item.0;
    assert(registrations@ =~= spec_registrations());
    assert(entries@.map_values(|e: MenuEntry| e@) =~= spec_menu_entries(*settings, should_startup));
    TrayMenu { entries, registrations }
}

} // verus!
