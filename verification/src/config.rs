use crate::window::WindowPosition;
use vstd::prelude::*;

verus! {

/// Which theme the indicator follows.
#[derive(Clone, Copy, PartialEq, Eq, Structural, Debug, Hash)]
pub enum IndicatorTheme {
    /// Follow the theme of the area under the indicator.
    FollowIndicatorArea,
    /// Follow the system theme.
    FollowSystem,
}

/// On which monitor the indicator is shown.
#[derive(Clone, Copy, PartialEq, Eq, Structural, Debug, Hash)]
pub enum MonitorSelection {
    /// The monitor that holds the mouse cursor.
    Mouse,
    /// The primary monitor.
    Primary,
}

/// The part of the configuration that the tray menu shows and changes.
#[derive(Clone, Copy, PartialEq, Eq, Structural, Debug, Hash)]
pub struct MenuSettings {
    pub indicator_theme: IndicatorTheme,
    pub monitor: MonitorSelection,
    pub window_position: WindowPosition,
}

/// A change of one setting, as a click on a radio entry of the menu asks for it.
#[derive(Clone, Copy, PartialEq, Eq, Structural, Debug, Hash)]
pub enum SettingChange {
    IndicatorAreaTheme,
    SystemTheme,
    MouseMonitor,
    PrimaryMonitor,
    WindowPosition(WindowPosition),
}

impl MenuSettings {
    /// The settings after `change`: the one setting it names takes the value it names,
    /// the others stay.
    pub open spec fn spec_apply(self, change: SettingChange) -> MenuSettings {
        match change {
            SettingChange::IndicatorAreaTheme => MenuSettings {
                indicator_theme: IndicatorTheme::FollowIndicatorArea,
                ..self
            },
            SettingChange::SystemTheme => MenuSettings {
                indicator_theme: IndicatorTheme::FollowSystem,
                ..self
            },
            SettingChange::MouseMonitor => MenuSettings { monitor: MonitorSelection::Mouse, ..self },
            SettingChange::PrimaryMonitor => MenuSettings {
                monitor: MonitorSelection::Primary,
                ..self
            },
            SettingChange::WindowPosition(p) => MenuSettings { window_position: p, ..self },
        }
    }

    /// Applies `change` to the settings.
    pub fn apply(&mut self, change: SettingChange)
        ensures
            *final(self) == old(self).spec_apply(change),
    {
        match change {
            SettingChange::IndicatorAreaTheme => {
                self.indicator_theme = IndicatorTheme::FollowIndicatorArea;
            },
            SettingChange::SystemTheme => {
                self.indicator_theme = IndicatorTheme::FollowSystem;
            },
            SettingChange::MouseMonitor => {
                self.monitor = MonitorSelection::Mouse;
            },
            SettingChange::PrimaryMonitor => {
                self.monitor = MonitorSelection::Primary;
            },
            SettingChange::WindowPosition(p) => {
                self.window_position = p;
            },
        }
    }
}

/// Applying a change sets the one setting it names to the value it names and leaves the
/// other two settings as they were.
pub proof fn lemma_apply_changes_only_named_setting(s: MenuSettings, change: SettingChange)
    ensures
        change == SettingChange::IndicatorAreaTheme ==> s.spec_apply(change)
            == (MenuSettings {
            indicator_theme: IndicatorTheme::FollowIndicatorArea,
            monitor: s.monitor,
            window_position: s.window_position,
        }),
        change == SettingChange::SystemTheme ==> s.spec_apply(change) == (MenuSettings {
            indicator_theme: IndicatorTheme::FollowSystem,
            monitor: s.monitor,
            window_position: s.window_position,
        }),
        change == SettingChange::MouseMonitor ==> s.spec_apply(change) == (MenuSettings {
            indicator_theme: s.indicator_theme,
            monitor: MonitorSelection::Mouse,
            window_position: s.window_position,
        }),
        change == SettingChange::PrimaryMonitor ==> s.spec_apply(change) == (MenuSettings {
            indicator_theme: s.indicator_theme,
            monitor: MonitorSelection::Primary,
            window_position: s.window_position,
        }),
        forall|p: WindowPosition|
            change == SettingChange::WindowPosition(p) ==> #[trigger] s.spec_apply(
                SettingChange::WindowPosition(p),
            ) == (MenuSettings {
                indicator_theme: s.indicator_theme,
                monitor: s.monitor,
                window_position: p,
            }),
{
}

} // verus!

