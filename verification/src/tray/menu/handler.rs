use super::ids::MenuKey;
use super::MenuGroup;
use crate::config::SettingChange;
use crate::events::AppEvent;
use vstd::prelude::*;
use vstd::string::*;

verus! {

/// The kind of a menu control that a click reached, as the menu registry hands it over.
#[derive(Clone, Copy, PartialEq, Eq, Structural, Debug)]
pub enum ControlKind {
    /// A plain menu item.
    MenuItem,
    /// A menu item with an icon.
    IconMenu,
    /// A stand-alone check item, with its checked state after the click.
    Separate { checked: bool },
    /// A check item of a check-box group.
    CheckBox { group: MenuGroup },
    /// A check item of a radio group.
    Radio { group: MenuGroup },
}

/// A menu control that a click reached: its kind and its id.
#[derive(Debug, PartialEq, Eq)]
pub struct ClickedControl {
    pub kind: ControlKind,
    pub id: String,
}

/// What the application does in answer to a click.
#[derive(Clone, Copy, PartialEq, Eq, Structural, Debug)]
pub enum MenuAction {
    /// Turn starting with the system on or off.
    SetStartup(bool),
    /// Apply the change, if there is one, save the configuration, then send the event
    /// (a failure to send is ignored).
    UpdateSettings { change: Option<SettingChange>, then: AppEvent },
    /// Send the event to the event loop (a failure to send is an error).
    SendEvent(AppEvent),
    /// Open the configuration file in an editor.
    OpenConfigFile,
    /// Do nothing.
    Nothing,
}

/// Why a click cannot be handled.
#[derive(Debug, PartialEq, Eq)]
pub enum MenuError {
    /// A stand-alone check item with an unknown id.
    NoMatchCheckMenu(String),
    /// A check item of a check-box group: no such group is handled.
    UnsupportedCheckGroup(String),
    /// An icon menu item: none is handled.
    IconMenu,
    /// A plain menu item with an unknown id.
    NoMatchNormalMenu(String),
}

impl MenuError {
    /// The message that reports the error.
    pub open spec fn spec_message(&self) -> Seq<char> {
        match self {
            MenuError::NoMatchCheckMenu(id) => "No match single check menu: "@ + id@,
            MenuError::UnsupportedCheckGroup(id) => "Not support check menu group: "@ + id@,
            MenuError::IconMenu => "None icon menu"@,
            MenuError::NoMatchNormalMenu(id) => "No match normal menu: "@ + id@,
        }
    }

    /// The message that reports the error.
    pub fn message(&self) -> (r: String)
        ensures
            r@ == self.spec_message(),
    {
        match self {
            MenuError::NoMatchCheckMenu(id) => {
                let mut s = String::from_str("No match single check menu: ");
                s.append(id.as_str());
                s
            },
            MenuError::UnsupportedCheckGroup(id) => {
                let mut s = String::from_str("Not support check menu group: ");
                s.append(id.as_str());
                s
            },
            MenuError::IconMenu => String::from_str("None icon menu"),
            MenuError::NoMatchNormalMenu(id) => {
                let mut s = String::from_str("No match normal menu: ");
                s.append(id.as_str());
                s
            },
        }
    }
}

/// The answer to a click on `control`.
pub open spec fn spec_handle(control: ClickedControl) -> Result<MenuAction, MenuError> {
    let key = MenuKey::spec_from_id(control.id@);
    match control.kind {
        ControlKind::Separate { checked } => {
            if key == Some(MenuKey::Startup) {
                Ok(MenuAction::SetStartup(checked))
            } else {
                Err(MenuError::NoMatchCheckMenu(control.id))
            }
        },
        ControlKind::CheckBox { .. } => Err(MenuError::UnsupportedCheckGroup(control.id)),
        ControlKind::Radio { group } => match group {
            MenuGroup::RadioIndicatorIconTheme => Ok(
                MenuAction::UpdateSettings {
                    change: if key == Some(MenuKey::FollowIndicatorAreaTheme) {
                        Some(SettingChange::IndicatorAreaTheme)
                    } else if key == Some(MenuKey::FollowSystemTheme) {
                        Some(SettingChange::SystemTheme)
                    } else {
                        None
                    },
                    then: AppEvent::RedrawRequested,
                },
            ),
            MenuGroup::RadioMonitorSelector => Ok(
                MenuAction::UpdateSettings {
                    change: if key == Some(MenuKey::SelectMouseMonitor) {
                        Some(SettingChange::MouseMonitor)
                    } else if key == Some(MenuKey::SelectPrimaryMonitor) {
                        Some(SettingChange::PrimaryMonitor)
                    } else {
                        None
                    },
                    then: AppEvent::MoveWindow,
                },
            ),
            MenuGroup::RadioWindowPosition => match key {
                Some(MenuKey::Position(p)) => Ok(
                    MenuAction::UpdateSettings {
                        change: Some(SettingChange::WindowPosition(p)),
                        then: AppEvent::MoveWindow,
                    },
                ),
                _ => Ok(MenuAction::Nothing),
            },
        },
        ControlKind::IconMenu => Err(MenuError::IconMenu),
        ControlKind::MenuItem => match key {
            Some(MenuKey::Quit) => Ok(MenuAction::SendEvent(AppEvent::Exit)),
            Some(MenuKey::About) => Ok(MenuAction::SendEvent(AppEvent::ShowAboutDialog)),
            Some(MenuKey::Restart) => Ok(MenuAction::SendEvent(AppEvent::Restart)),
            Some(MenuKey::OpenConfig) => Ok(MenuAction::OpenConfigFile),
            _ => Err(MenuError::NoMatchNormalMenu(control.id)),
        },
    }
}

/// Decides what a click on one menu control does.
pub struct MenuHandler {
    menu_control: ClickedControl,
}

impl MenuHandler {
    /// The control that the handler answers.
    pub closed spec fn control(&self) -> ClickedControl {
        self.menu_control
    }

    /// A handler for a click on `menu_control`.
    pub fn new(menu_control: ClickedControl) -> (r: MenuHandler)
        ensures
            r.control() == menu_control,
    {
        MenuHandler { menu_control }
    }

    /// What the click asks for, or why it cannot be handled.
    pub fn run(&self) -> (r: Result<MenuAction, MenuError>)
        ensures
            r == spec_handle(self.control()),
    {
        let id = &self.menu_control.id;
        let key = MenuKey::from_id(id.as_str());
        match self.menu_control.kind {
            ControlKind::Separate { checked } => {
                if key == Some(MenuKey::Startup) {
                    Ok(MenuAction::SetStartup(checked))
                } else {
                    Err(MenuError::NoMatchCheckMenu(id.clone()))
                }
            },
            ControlKind::CheckBox { .. } => Err(MenuError::UnsupportedCheckGroup(id.clone())),
            ControlKind::Radio { group } => match group {
                MenuGroup::RadioIndicatorIconTheme => {
                    let change = if key == Some(MenuKey::FollowIndicatorAreaTheme) {
                        Some(SettingChange::IndicatorAreaTheme)
                    } else if key == Some(MenuKey::FollowSystemTheme) {
                        Some(SettingChange::SystemTheme)
                    } else {
                        None
                    };
                    Ok(MenuAction::UpdateSettings { change, then: AppEvent::RedrawRequested })
                },
                MenuGroup::RadioMonitorSelector => {
                    let change = if key == Some(MenuKey::SelectMouseMonitor) {
                        Some(SettingChange::MouseMonitor)
                    } else if key == Some(MenuKey::SelectPrimaryMonitor) {
                        Some(SettingChange::PrimaryMonitor)
                    } else {
                        None
                    };
                    Ok(MenuAction::UpdateSettings { change, then: AppEvent::MoveWindow })
                },
                MenuGroup::RadioWindowPosition => match key {
                    Some(MenuKey::Position(p)) => Ok(
                        MenuAction::UpdateSettings {
                            change: Some(SettingChange::WindowPosition(p)),
                            then: AppEvent::MoveWindow,
                        },
                    ),
                    _ => Ok(MenuAction::Nothing),
                },
            },
            ControlKind::IconMenu => Err(MenuError::IconMenu),
            ControlKind::MenuItem => match key {
                Some(MenuKey::Quit) => Ok(MenuAction::SendEvent(AppEvent::Exit)),
                Some(MenuKey::About) => Ok(MenuAction::SendEvent(AppEvent::ShowAboutDialog)),
                Some(MenuKey::Restart) => Ok(MenuAction::SendEvent(AppEvent::Restart)),
                Some(MenuKey::OpenConfig) => Ok(MenuAction::OpenConfigFile),
                _ => Err(MenuError::NoMatchNormalMenu(id.clone())),
            },
        }
    }
}

/// The messages of the errors: each names the kind of control and the id that no entry has.
pub proof fn lemma_error_messages(id: String)
    ensures
        MenuError::NoMatchCheckMenu(id).spec_message() == "No match single check menu: "@ + id@,
        MenuError::UnsupportedCheckGroup(id).spec_message() == "Not support check menu group: "@
            + id@,
        MenuError::IconMenu.spec_message() == "None icon menu"@,
        MenuError::NoMatchNormalMenu(id).spec_message() == "No match normal menu: "@ + id@,
{
}

} // verus!

