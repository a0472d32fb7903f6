use super::handler::{spec_handle, ClickedControl, ControlKind, MenuAction, MenuError};
use super::ids::{lemma_id_injective, lemma_id_round_trip, lemma_menu_id_table, Label, MenuKey};
use super::item::{
    spec_menu_entries, spec_monitor_items, spec_position_items, spec_registrations, spec_theme_items,
    CheckEntry, ControlRole, MenuEntryView, Registration, radio, spec_position_registration,
};
use super::MenuGroup;
use crate::config::{IndicatorTheme, MenuSettings, MonitorSelection, SettingChange};
use crate::events::AppEvent;
use crate::window::{lemma_window_positions_complete, spec_window_positions, WindowPosition};
use vstd::prelude::*;

verus! {

/// The check items of the submenu that holds radio group `g`.
pub open spec fn spec_group_items(s: MenuSettings, g: MenuGroup) -> Seq<CheckEntry> {
    match g {
        MenuGroup::RadioMonitorSelector => spec_monitor_items(s),
        MenuGroup::RadioWindowPosition => spec_position_items(s),
        MenuGroup::RadioIndicatorIconTheme => spec_theme_items(s),
    }
}

/// The entry of radio group `g` that stands for the current setting.
pub open spec fn spec_selected_key(s: MenuSettings, g: MenuGroup) -> MenuKey {
    match g {
        MenuGroup::RadioMonitorSelector => match s.monitor {
            MonitorSelection::Mouse => MenuKey::SelectMouseMonitor,
            MonitorSelection::Primary => MenuKey::SelectPrimaryMonitor,
        },
        MenuGroup::RadioWindowPosition => MenuKey::Position(s.window_position),
        MenuGroup::RadioIndicatorIconTheme => match s.indicator_theme {
            IndicatorTheme::FollowIndicatorArea => MenuKey::FollowIndicatorAreaTheme,
            IndicatorTheme::FollowSystem => MenuKey::FollowSystemTheme,
        },
    }
}

/// The event sent after a setting of radio group `g` changed.
pub open spec fn spec_group_event(g: MenuGroup) -> AppEvent {
    match g {
        MenuGroup::RadioIndicatorIconTheme => AppEvent::RedrawRequested,
        _ => AppEvent::MoveWindow,
    }
}

/// The kind of control that the registry hands over for an entry registered with `role`.
pub open spec fn spec_registered_kind(role: ControlRole, checked: bool) -> ControlKind {
    match role {
        ControlRole::Normal => ControlKind::MenuItem,
        ControlRole::Separate => ControlKind::Separate { checked },
        ControlRole::Radio { group, .. } => ControlKind::Radio { group },
    }
}

/// The three submenus at the top of the menu hold the radio groups, monitor first, then
/// position, then theme.
pub proof fn lemma_submenus_hold_radio_groups(s: MenuSettings, should_startup: bool)
    ensures
        spec_menu_entries(s, should_startup)[0] == (MenuEntryView::Submenu {
            label: Label::SelectMonitor,
            items: spec_group_items(s, MenuGroup::RadioMonitorSelector),
        }),
        spec_menu_entries(s, should_startup)[1] == (MenuEntryView::Submenu {
            label: Label::PositionMenu,
            items: spec_group_items(s, MenuGroup::RadioWindowPosition),
        }),
        spec_menu_entries(s, should_startup)[2] == (MenuEntryView::Submenu {
            label: Label::Theme,
            items: spec_group_items(s, MenuGroup::RadioIndicatorIconTheme),
        }),
{
}

/// In every radio submenu an item is checked exactly when it stands for the current
/// setting, and exactly one item stands for it: one item of each group is checked.
pub proof fn lemma_radio_groups_reflect_settings(s: MenuSettings, g: MenuGroup)
    ensures
        ({
            let items = spec_group_items(s, g);
            &&& forall|j: int|
                0 <= j < items.len() ==> (#[trigger] items[j].checked <==> items[j].key
                    == spec_selected_key(s, g))
            &&& exists|j: int| 0 <= j < items.len() && #[trigger] items[j].key == spec_selected_key(s, g)
            &&& forall|i: int, j: int|
                0 <= i < items.len() && 0 <= j < items.len() && i != j ==> #[trigger] items[i].key
                    != #[trigger] items[j].key
        }),
{
    let items = spec_group_items(s, g);
    match g {
        MenuGroup::RadioWindowPosition => {
            let ps = spec_window_positions();
            lemma_window_positions_complete(s.window_position);
            let k = ps.index_of(s.window_position);
            assert(items[k].key == spec_selected_key(s, g));
            assert forall|i: int, j: int|
                0 <= i < items.len() && 0 <= j < items.len() && i != j implies #[trigger] items[i].key
                != #[trigger] items[j].key by {
                assert(items[i].key == MenuKey::Position(ps[i]));
                assert(items[j].key == MenuKey::Position(ps[j]));
            }
        },
        MenuGroup::RadioMonitorSelector => {
            match s.monitor {
                MonitorSelection::Mouse => assert(items[1].key == spec_selected_key(s, g)),
                MonitorSelection::Primary => assert(items[0].key == spec_selected_key(s, g)),
            }
        },
        MenuGroup::RadioIndicatorIconTheme => {
            match s.indicator_theme {
                IndicatorTheme::FollowIndicatorArea => assert(items[0].key == spec_selected_key(s, g)),
                IndicatorTheme::FollowSystem => assert(items[1].key == spec_selected_key(s, g)),
            }
        },
    }
}

/// The registrations, written out one by one.
spec fn spec_registrations_listed() -> Seq<Registration> {
    seq![
        Registration { key: MenuKey::About, role: ControlRole::Normal },
        Registration { key: MenuKey::Quit, role: ControlRole::Normal },
        Registration { key: MenuKey::Restart, role: ControlRole::Normal },
        Registration { key: MenuKey::Startup, role: ControlRole::Separate },
        Registration { key: MenuKey::OpenConfig, role: ControlRole::Normal },
        radio(
            MenuKey::FollowIndicatorAreaTheme,
            MenuKey::FollowIndicatorAreaTheme,
            MenuGroup::RadioIndicatorIconTheme,
        ),
        radio(
            MenuKey::FollowSystemTheme,
            MenuKey::FollowIndicatorAreaTheme,
            MenuGroup::RadioIndicatorIconTheme,
        ),
        spec_position_registration(WindowPosition::Center),
        spec_position_registration(WindowPosition::Left),
        spec_position_registration(WindowPosition::Right),
        spec_position_registration(WindowPosition::Top),
        spec_position_registration(WindowPosition::Bottom),
        spec_position_registration(WindowPosition::TopLeft),
        spec_position_registration(WindowPosition::TopRight),
        spec_position_registration(WindowPosition::BottomLeft),
        spec_position_registration(WindowPosition::BottomRight),
        radio(
            MenuKey::SelectPrimaryMonitor,
            MenuKey::SelectMouseMonitor,
            MenuGroup::RadioMonitorSelector,
        ),
        radio(MenuKey::SelectMouseMonitor, MenuKey::SelectMouseMonitor, MenuGroup::RadioMonitorSelector),
    ]
}

proof fn lemma_registrations_listed()
    ensures
        spec_registrations() == spec_registrations_listed(),
{
    assert(spec_registrations() =~= spec_registrations_listed());
}

/// No two registrations share an id, so the registry keeps every entry of the menu.
pub proof fn lemma_registered_ids_distinct()
    ensures
        forall|i: int, j: int|
            0 <= i < spec_registrations().len() && 0 <= j < spec_registrations().len() && i != j
                ==> (#[trigger] spec_registrations()[i]).key.spec_id()
                != (#[trigger] spec_registrations()[j]).key.spec_id(),
{
    lemma_registrations_listed();
    let r = spec_registrations();
    assert forall|i: int, j: int|
        0 <= i < r.len() && 0 <= j < r.len() && i != j implies (#[trigger] r[i]).key.spec_id()
        != (#[trigger] r[j]).key.spec_id() by {
        lemma_id_injective(r[i].key, r[j].key);
    }
}

/// A click on any registered entry is handled: the registry only ever hands over controls
/// for which the handler has an answer, never an error.
pub proof fn lemma_registered_entries_are_handled(i: int, id: String, checked: bool)
    requires
        0 <= i < spec_registrations().len(),
        id@ == spec_registrations()[i].key.spec_id(),
    ensures
        spec_handle(
            ClickedControl { kind: spec_registered_kind(spec_registrations()[i].role, checked), id },
        ) is Ok,
{
    lemma_registrations_listed();
    lemma_id_round_trip(spec_registrations()[i].key);
}

/// A click on a member of a radio group asks for the change of setting that makes that
/// member the selected one, and names the event that follows; and the member is an item of
/// its group's submenu.
pub proof fn lemma_radio_click_selects(s: MenuSettings, i: int, id: String)
    requires
        0 <= i < spec_registrations().len(),
        spec_registrations()[i].role is Radio,
        id@ == spec_registrations()[i].key.spec_id(),
    ensures
        ({
            let r = spec_registrations()[i];
            let g = r.role->group;
            &&& exists|c: SettingChange|
                spec_handle(ClickedControl { kind: ControlKind::Radio { group: g }, id }) == Ok::<MenuAction, MenuError>(
                    MenuAction::UpdateSettings { change: Some(c), then: spec_group_event(g) },
                ) && spec_selected_key(#[trigger] s.spec_apply(c), g) == r.key
            &&& exists|j: int|
                0 <= j < spec_group_items(s, g).len() && (#[trigger] spec_group_items(s, g)[j]).key
                    == r.key
        }),
{
    lemma_registrations_listed();
    let r = spec_registrations()[i];
    let g = r.role->group;
    lemma_id_round_trip(r.key);
    let c = match r.key {
        MenuKey::FollowIndicatorAreaTheme => SettingChange::IndicatorAreaTheme,
        MenuKey::FollowSystemTheme => SettingChange::SystemTheme,
        MenuKey::SelectMouseMonitor => SettingChange::MouseMonitor,
        MenuKey::SelectPrimaryMonitor => SettingChange::PrimaryMonitor,
        MenuKey::Position(p) => SettingChange::WindowPosition(p),
        _ => SettingChange::IndicatorAreaTheme,
    };
    assert(spec_selected_key(s.spec_apply(c), g) == r.key);
    let sel = s.spec_apply(c);
    lemma_radio_groups_reflect_settings(s, g);
    match r.key {
        MenuKey::Position(p) => {
            lemma_window_positions_complete(p);
            let k = spec_window_positions().index_of(p);
            assert(spec_group_items(s, g)[k].key == r.key);
        },
        MenuKey::FollowIndicatorAreaTheme => assert(spec_group_items(s, g)[0].key == r.key),
        MenuKey::FollowSystemTheme => assert(spec_group_items(s, g)[1].key == r.key),
        MenuKey::SelectPrimaryMonitor => assert(spec_group_items(s, g)[0].key == r.key),
        MenuKey::SelectMouseMonitor => assert(spec_group_items(s, g)[1].key == r.key),
        _ => {},
    }
}

/// The ids that one entry of the menu shows, in display order.
pub open spec fn spec_entry_keys(e: MenuEntryView) -> Seq<MenuKey> {
    match e {
        MenuEntryView::Item { key, .. } => seq![key],
        MenuEntryView::Check(c) => seq![c.key],
        MenuEntryView::Submenu { items, .. } => items.map_values(|c: CheckEntry| c.key),
        MenuEntryView::Separator => Seq::empty(),
    }
}

/// The ids that the entries show, in display order.
pub open spec fn spec_shown_keys(entries: Seq<MenuEntryView>) -> Seq<MenuKey>
    decreases entries.len(),
{
    if entries.len() == 0 {
        Seq::empty()
    } else {
        spec_shown_keys(entries.drop_last()) + spec_entry_keys(entries.last())
    }
}

/// Every id that the menu shows is registered with the registry, and every registration
/// is for an id that the menu shows: a click on any item reaches a control, and no control
/// is left without an item.
pub proof fn lemma_shown_items_are_registered(s: MenuSettings, should_startup: bool)
    ensures
        forall|k: MenuKey|
            #[trigger] spec_shown_keys(spec_menu_entries(s, should_startup)).contains(k) <==> exists|
                i: int,
            |
                0 <= i < spec_registrations().len() && (#[trigger] spec_registrations()[i]).key == k,
{
    let entries = spec_menu_entries(s, should_startup);
    reveal_with_fuel(spec_shown_keys, 14);
    let shown = spec_shown_keys(entries);
    let ps = spec_window_positions();
    let position_keys = spec_position_items(s).map_values(|c: CheckEntry| c.key);
    assert(position_keys =~= ps.map_values(|p: WindowPosition| MenuKey::Position(p)));
    assert(shown =~= seq![MenuKey::SelectPrimaryMonitor, MenuKey::SelectMouseMonitor]
        + ps.map_values(|p: WindowPosition| MenuKey::Position(p))
        + seq![MenuKey::FollowIndicatorAreaTheme, MenuKey::FollowSystemTheme]
        + seq![MenuKey::OpenConfig, MenuKey::Startup, MenuKey::Restart, MenuKey::About, MenuKey::Quit]);
    lemma_registrations_listed();
    let r = spec_registrations();
    assert forall|k: MenuKey| #[trigger] shown.contains(k) <==> exists|i: int|
        0 <= i < r.len() && (#[trigger] r[i]).key == k by {
        match k {
            MenuKey::SelectPrimaryMonitor => {
                assert(shown[0] == k);
                assert(r[16].key == k);
            },
            MenuKey::SelectMouseMonitor => {
                assert(shown[1] == k);
                assert(r[17].key == k);
            },
            MenuKey::Position(p) => {
                lemma_window_positions_complete(p);
                let j = ps.index_of(p);
                assert(shown[2 + j] == k);
                assert(r[7 + j].key == k);
            },
            MenuKey::FollowIndicatorAreaTheme => {
                assert(shown[11] == k);
                assert(r[5].key == k);
            },
            MenuKey::FollowSystemTheme => {
                assert(shown[12] == k);
                assert(r[6].key == k);
            },
            MenuKey::OpenConfig => {
                assert(shown[13] == k);
                assert(r[4].key == k);
            },
            MenuKey::Startup => {
                assert(shown[14] == k);
                assert(r[3].key == k);
            },
            MenuKey::Restart => {
                assert(shown[15] == k);
                assert(r[2].key == k);
            },
            MenuKey::About => {
                assert(shown[16] == k);
                assert(r[0].key == k);
            },
            MenuKey::Quit => {
                assert(shown[17] == k);
                assert(r[1].key == k);
            },
        }
    }
}

/// The one top-level check item of the menu is the start-with-system item, and it is checked
/// exactly when starting with the system is on; nothing else in the menu depends on it.
pub proof fn lemma_startup_item_follows_startup_state(s: MenuSettings, should_startup: bool)
    ensures
        spec_menu_entries(s, should_startup)[6] == MenuEntryView::Check(
            CheckEntry { key: MenuKey::Startup, label: Label::Startup, checked: should_startup },
        ),
        forall|i: int|
            0 <= i < spec_menu_entries(s, should_startup).len() && i != 6 ==> !(
            #[trigger] spec_menu_entries(s, should_startup)[i] is Check),
        spec_menu_entries(s, should_startup).len() == spec_menu_entries(s, !should_startup).len(),
        forall|i: int|
            0 <= i < spec_menu_entries(s, should_startup).len() && i != 6 ==> #[trigger] spec_menu_entries(
                s,
                should_startup,
            )[i] == spec_menu_entries(s, !should_startup)[i],
{
}

/// What a click does, entry by entry: the plain items quit, show the about dialog, restart or
/// open the configuration file; the start-with-system item sets starting with the system to
/// its new checked state; a radio item of a group asks for the setting it stands for and then
/// redraws (theme) or moves the window (monitor, position); a plain item with any other id is
/// an error that names the id.
pub proof fn lemma_click_answers(id: String, checked: bool)
    ensures
        id@ == MenuKey::Quit.spec_id() ==> spec_handle(
            ClickedControl { kind: ControlKind::MenuItem, id },
        ) == Ok::<MenuAction, MenuError>(MenuAction::SendEvent(AppEvent::Exit)),
        id@ == MenuKey::About.spec_id() ==> spec_handle(
            ClickedControl { kind: ControlKind::MenuItem, id },
        ) == Ok::<MenuAction, MenuError>(MenuAction::SendEvent(AppEvent::ShowAboutDialog)),
        id@ == MenuKey::Restart.spec_id() ==> spec_handle(
            ClickedControl { kind: ControlKind::MenuItem, id },
        ) == Ok::<MenuAction, MenuError>(MenuAction::SendEvent(AppEvent::Restart)),
        id@ == MenuKey::OpenConfig.spec_id() ==> spec_handle(
            ClickedControl { kind: ControlKind::MenuItem, id },
        ) == Ok::<MenuAction, MenuError>(MenuAction::OpenConfigFile),
        id@ != MenuKey::Quit.spec_id() && id@ != MenuKey::About.spec_id() && id@
            != MenuKey::Restart.spec_id() && id@ != MenuKey::OpenConfig.spec_id() ==> spec_handle(
            ClickedControl { kind: ControlKind::MenuItem, id },
        ) == Err::<MenuAction, MenuError>(MenuError::NoMatchNormalMenu(id)),
        id@ == MenuKey::Startup.spec_id() ==> spec_handle(
            ClickedControl { kind: ControlKind::Separate { checked }, id },
        ) == Ok::<MenuAction, MenuError>(MenuAction::SetStartup(checked)),
        id@ != MenuKey::Startup.spec_id() ==> spec_handle(
            ClickedControl { kind: ControlKind::Separate { checked }, id },
        ) == Err::<MenuAction, MenuError>(MenuError::NoMatchCheckMenu(id)),
        id@ == MenuKey::FollowIndicatorAreaTheme.spec_id() ==> spec_handle(
            ClickedControl { kind: ControlKind::Radio { group: MenuGroup::RadioIndicatorIconTheme }, id },
        ) == Ok::<MenuAction, MenuError>(
            MenuAction::UpdateSettings {
                change: Some(SettingChange::IndicatorAreaTheme),
                then: AppEvent::RedrawRequested,
            },
        ),
        id@ == MenuKey::FollowSystemTheme.spec_id() ==> spec_handle(
            ClickedControl { kind: ControlKind::Radio { group: MenuGroup::RadioIndicatorIconTheme }, id },
        ) == Ok::<MenuAction, MenuError>(
            MenuAction::UpdateSettings {
                change: Some(SettingChange::SystemTheme),
                then: AppEvent::RedrawRequested,
            },
        ),
        id@ == MenuKey::SelectMouseMonitor.spec_id() ==> spec_handle(
            ClickedControl { kind: ControlKind::Radio { group: MenuGroup::RadioMonitorSelector }, id },
        ) == Ok::<MenuAction, MenuError>(
            MenuAction::UpdateSettings {
                change: Some(SettingChange::MouseMonitor),
                then: AppEvent::MoveWindow,
            },
        ),
        id@ == MenuKey::SelectPrimaryMonitor.spec_id() ==> spec_handle(
            ClickedControl { kind: ControlKind::Radio { group: MenuGroup::RadioMonitorSelector }, id },
        ) == Ok::<MenuAction, MenuError>(
            MenuAction::UpdateSettings {
                change: Some(SettingChange::PrimaryMonitor),
                then: AppEvent::MoveWindow,
            },
        ),
        forall|p: WindowPosition|
            id@ == #[trigger] MenuKey::Position(p).spec_id() ==> spec_handle(
                ClickedControl { kind: ControlKind::Radio { group: MenuGroup::RadioWindowPosition }, id },
            ) == Ok::<MenuAction, MenuError>(
                MenuAction::UpdateSettings {
                    change: Some(SettingChange::WindowPosition(p)),
                    then: AppEvent::MoveWindow,
                },
            ),
        spec_handle(ClickedControl { kind: ControlKind::IconMenu, id }) == Err::<
            MenuAction,
            MenuError,
        >(MenuError::IconMenu),
{
    lemma_id_round_trip(MenuKey::Quit);
    lemma_id_round_trip(MenuKey::About);
    lemma_id_round_trip(MenuKey::Restart);
    lemma_id_round_trip(MenuKey::OpenConfig);
    lemma_id_round_trip(MenuKey::Startup);
    lemma_id_round_trip(MenuKey::FollowIndicatorAreaTheme);
    lemma_id_round_trip(MenuKey::FollowSystemTheme);
    lemma_id_round_trip(MenuKey::SelectMouseMonitor);
    lemma_id_round_trip(MenuKey::SelectPrimaryMonitor);
    assert forall|p: WindowPosition|
        id@ == #[trigger] MenuKey::Position(p).spec_id() implies spec_handle(
        ClickedControl { kind: ControlKind::Radio { group: MenuGroup::RadioWindowPosition }, id },
    ) == Ok::<MenuAction, MenuError>(
        MenuAction::UpdateSettings {
            change: Some(SettingChange::WindowPosition(p)),
            then: AppEvent::MoveWindow,
        },
    ) by {
        lemma_id_round_trip(MenuKey::Position(p));
    }
    if id@ != MenuKey::Quit.spec_id() && id@ != MenuKey::About.spec_id() && id@
        != MenuKey::Restart.spec_id() && id@ != MenuKey::OpenConfig.spec_id() {
        let k = MenuKey::spec_from_id(id@);
        if k is Some {
            lemma_id_round_trip(k->0);
            lemma_menu_id_table(id@);
        }
    }
    if id@ != MenuKey::Startup.spec_id() {
        let k = MenuKey::spec_from_id(id@);
        if k is Some {
            lemma_menu_id_table(id@);
        }
    }
}

/// The text of an entry, by its id.
pub open spec fn spec_label_of(key: MenuKey) -> Label {
    match key {
        MenuKey::Quit => Label::Quit,
        MenuKey::About => Label::About,
        MenuKey::Restart => Label::Restart,
        MenuKey::Startup => Label::Startup,
        MenuKey::OpenConfig => Label::OpenConfig,
        MenuKey::FollowIndicatorAreaTheme => Label::FollowIndicatorAreaTheme,
        MenuKey::FollowSystemTheme => Label::FollowSystemTheme,
        MenuKey::SelectMouseMonitor => Label::SelectMouseMonitor,
        MenuKey::SelectPrimaryMonitor => Label::SelectPrimaryMonitor,
        MenuKey::Position(p) => Label::Position(p),
    }
}

/// Every item of the menu carries the text of its own entry; the position submenu lists the
/// positions centre, left, right, top, bottom, then the four corners; and each radio group
/// falls back to its default entry: the mouse monitor for the monitor group, the
/// indicator-area theme for the other two groups.
pub proof fn lemma_menu_texts_order_and_defaults(s: MenuSettings, should_startup: bool)
    ensures
        forall|i: int|
            0 <= i < spec_menu_entries(s, should_startup).len() ==> match #[trigger] spec_menu_entries(
                s,
                should_startup,
            )[i] {
                MenuEntryView::Item { key, label } => label == spec_label_of(key),
                MenuEntryView::Check(c) => c.label == spec_label_of(c.key),
                MenuEntryView::Submenu { items, .. } => forall|j: int|
                    0 <= j < items.len() ==> (#[trigger] items[j]).label == spec_label_of(
                        items[j].key,
                    ),
                MenuEntryView::Separator => true,
            },
        spec_position_items(s).len() == 9,
        spec_position_items(s)[0].key == MenuKey::Position(WindowPosition::Center),
        spec_position_items(s)[1].key == MenuKey::Position(WindowPosition::Left),
        spec_position_items(s)[2].key == MenuKey::Position(WindowPosition::Right),
        spec_position_items(s)[3].key == MenuKey::Position(WindowPosition::Top),
        spec_position_items(s)[4].key == MenuKey::Position(WindowPosition::Bottom),
        spec_position_items(s)[5].key == MenuKey::Position(WindowPosition::TopLeft),
        spec_position_items(s)[6].key == MenuKey::Position(WindowPosition::TopRight),
        spec_position_items(s)[7].key == MenuKey::Position(WindowPosition::BottomLeft),
        spec_position_items(s)[8].key == MenuKey::Position(WindowPosition::BottomRight),
        forall|i: int|
            0 <= i < spec_registrations().len() && (#[trigger] spec_registrations()[i]).role is Radio
                ==> spec_registrations()[i].role->default == if spec_registrations()[i].role->group
                == MenuGroup::RadioMonitorSelector {
                MenuKey::SelectMouseMonitor
            } else {
                MenuKey::FollowIndicatorAreaTheme
            },
{
    lemma_registrations_listed();
    let entries = spec_menu_entries(s, should_startup);
    assert forall|j: int|
        0 <= j < spec_position_items(s).len() implies (#[trigger] spec_position_items(s)[j]).label
        == spec_label_of(spec_position_items(s)[j].key) by {}
    assert(entries[1] == MenuEntryView::Submenu {
        label: Label::PositionMenu,
        items: spec_position_items(s),
    });
}

} // verus!

