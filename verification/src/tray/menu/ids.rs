use crate::window::WindowPosition;
use vstd::prelude::*;
use vstd::string::*;

verus! {

/// The entries of the tray menu that carry an id.
#[derive(Clone, Copy, PartialEq, Eq, Structural, Debug, Hash)]
pub enum MenuKey {
    Quit,
    About,
    Restart,
    Startup,
    OpenConfig,
    FollowIndicatorAreaTheme,
    FollowSystemTheme,
    SelectMouseMonitor,
    SelectPrimaryMonitor,
    Position(WindowPosition),
}

/// The texts of the tray menu; each stands for one entry of the localized string table.
#[derive(Clone, Copy, PartialEq, Eq, Structural, Debug, Hash)]
pub enum Label {
    About,
    Quit,
    Restart,
    Startup,
    OpenConfig,
    Theme,
    FollowIndicatorAreaTheme,
    FollowSystemTheme,
    PositionMenu,
    Position(WindowPosition),
    SelectMonitor,
    SelectPrimaryMonitor,
    SelectMouseMonitor,
}

/// The id string of a window position entry.
pub open spec fn spec_position_id(p: WindowPosition) -> Seq<char> {
    match p {
        WindowPosition::Center => "position_center"@,
        WindowPosition::Left => "position_left"@,
        WindowPosition::Right => "position_right"@,
        WindowPosition::Top => "position_top"@,
        WindowPosition::Bottom => "position_bottom"@,
        WindowPosition::TopLeft => "position_top_left"@,
        WindowPosition::TopRight => "position_top_right"@,
        WindowPosition::BottomLeft => "position_bottom_left"@,
        WindowPosition::BottomRight => "position_bottom_right"@,
    }
}

impl MenuKey {
    /// The menu id string of the entry.
    pub open spec fn spec_id(self) -> Seq<char> {
        match self {
            MenuKey::Quit => "quit"@,
            MenuKey::About => "about"@,
            MenuKey::Restart => "restart"@,
            MenuKey::Startup => "startup"@,
            MenuKey::OpenConfig => "open_config"@,
            MenuKey::FollowIndicatorAreaTheme => "follow_indicator_area_theme"@,
            MenuKey::FollowSystemTheme => "follow_system_theme"@,
            MenuKey::SelectMouseMonitor => "select_mouse_monitor"@,
            MenuKey::SelectPrimaryMonitor => "select_primary_monitor"@,
            MenuKey::Position(p) => spec_position_id(p),
        }
    }

    /// The entry whose id is `id`, if any.
    pub open spec fn spec_from_id(id: Seq<char>) -> Option<MenuKey> {
        if id == "quit"@ {
            Some(MenuKey::Quit)
        } else if id == "about"@ {
            Some(MenuKey::About)
        } else if id == "restart"@ {
            Some(MenuKey::Restart)
        } else if id == "startup"@ {
            Some(MenuKey::Startup)
        } else if id == "open_config"@ {
            Some(MenuKey::OpenConfig)
        } else if id == "follow_indicator_area_theme"@ {
            Some(MenuKey::FollowIndicatorAreaTheme)
        } else if id == "follow_system_theme"@ {
            Some(MenuKey::FollowSystemTheme)
        } else if id == "select_mouse_monitor"@ {
            Some(MenuKey::SelectMouseMonitor)
        } else if id == "select_primary_monitor"@ {
            Some(MenuKey::SelectPrimaryMonitor)
        } else if id == "position_center"@ {
            Some(MenuKey::Position(WindowPosition::Center))
        } else if id == "position_left"@ {
            Some(MenuKey::Position(WindowPosition::Left))
        } else if id == "position_right"@ {
            Some(MenuKey::Position(WindowPosition::Right))
        } else if id == "position_top"@ {
            Some(MenuKey::Position(WindowPosition::Top))
        } else if id == "position_bottom"@ {
            Some(MenuKey::Position(WindowPosition::Bottom))
        } else if id == "position_top_left"@ {
            Some(MenuKey::Position(WindowPosition::TopLeft))
        } else if id == "position_top_right"@ {
            Some(MenuKey::Position(WindowPosition::TopRight))
        } else if id == "position_bottom_left"@ {
            Some(MenuKey::Position(WindowPosition::BottomLeft))
        } else if id == "position_bottom_right"@ {
            Some(MenuKey::Position(WindowPosition::BottomRight))
        } else {
            None
        }
    }

    /// The menu id string of the entry.
    pub fn id(&self) -> (r: &'static str)
        ensures
            r@ == self.spec_id(),
    {
        match self {
            MenuKey::Quit => "quit",
            MenuKey::About => "about",
            MenuKey::Restart => "restart",
            MenuKey::Startup => "startup",
            MenuKey::OpenConfig => "open_config",
            MenuKey::FollowIndicatorAreaTheme => "follow_indicator_area_theme",
            MenuKey::FollowSystemTheme => "follow_system_theme",
            MenuKey::SelectMouseMonitor => "select_mouse_monitor",
            MenuKey::SelectPrimaryMonitor => "select_primary_monitor",
            MenuKey::Position(p) => match p {
                WindowPosition::Center => "position_center",
                WindowPosition::Left => "position_left",
                WindowPosition::Right => "position_right",
                WindowPosition::Top => "position_top",
                WindowPosition::Bottom => "position_bottom",
                WindowPosition::TopLeft => "position_top_left",
                WindowPosition::TopRight => "position_top_right",
                WindowPosition::BottomLeft => "position_bottom_left",
                WindowPosition::BottomRight => "position_bottom_right",
            },
        }
    }

    /// The entry whose id is `id`, if any.
    pub fn from_id(id: &str) -> (r: Option<MenuKey>)
        ensures
            r == MenuKey::spec_from_id(id@),
    {
        if str_eq(id, "quit") {
            Some(MenuKey::Quit)
        } else if str_eq(id, "about") {
            Some(MenuKey::About)
        } else if str_eq(id, "restart") {
            Some(MenuKey::Restart)
        } else if str_eq(id, "startup") {
            Some(MenuKey::Startup)
        } else if str_eq(id, "open_config") {
            Some(MenuKey::OpenConfig)
        } else if str_eq(id, "follow_indicator_area_theme") {
            Some(MenuKey::FollowIndicatorAreaTheme)
        } else if str_eq(id, "follow_system_theme") {
            Some(MenuKey::FollowSystemTheme)
        } else if str_eq(id, "select_mouse_monitor") {
            Some(MenuKey::SelectMouseMonitor)
        } else if str_eq(id, "select_primary_monitor") {
            Some(MenuKey::SelectPrimaryMonitor)
        } else if str_eq(id, "position_center") {
            Some(MenuKey::Position(WindowPosition::Center))
        } else if str_eq(id, "position_left") {
            Some(MenuKey::Position(WindowPosition::Left))
        } else if str_eq(id, "position_right") {
            Some(MenuKey::Position(WindowPosition::Right))
        } else if str_eq(id, "position_top") {
            Some(MenuKey::Position(WindowPosition::Top))
        } else if str_eq(id, "position_bottom") {
            Some(MenuKey::Position(WindowPosition::Bottom))
        } else if str_eq(id, "position_top_left") {
            Some(MenuKey::Position(WindowPosition::TopLeft))
        } else if str_eq(id, "position_top_right") {
            Some(MenuKey::Position(WindowPosition::TopRight))
        } else if str_eq(id, "position_bottom_left") {
            Some(MenuKey::Position(WindowPosition::BottomLeft))
        } else if str_eq(id, "position_bottom_right") {
            Some(MenuKey::Position(WindowPosition::BottomRight))
        } else {
            None
        }
    }
}

/// Whether two strings hold the same characters.
pub fn str_eq(a: &str, b: &str) -> (r: bool)
    ensures
        r == (a@ == b@),
{
    let n = a.unicode_len();
    let m = b.unicode_len();
    if n != m {
        return false;
    }
    let mut i: usize = 0;
    while i < n
        invariant
            n == a@.len(),
            m == b@.len(),
            n == m,
            i <= n,
            forall|j: int| 0 <= j < i ==> a@[j] == b@[j],
        decreases n - i,
    {
        let ca = a.get_char(i);
        let cb = b.get_char(i);
        if ca != cb {
            return false;
        }
        i = i + 1;
    }
    assert(a@ =~= b@);
    true
}

/// Reading back the id of an entry gives the entry: no two entries share an id.
pub proof fn lemma_id_round_trip(k: MenuKey)
    ensures
        MenuKey::spec_from_id(k.spec_id()) == Some(k),
{
    reveal_strlit("quit");
    reveal_strlit("about");
    reveal_strlit("restart");
    reveal_strlit("startup");
    reveal_strlit("open_config");
    reveal_strlit("follow_indicator_area_theme");
    reveal_strlit("follow_system_theme");
    reveal_strlit("select_mouse_monitor");
    reveal_strlit("select_primary_monitor");
    reveal_strlit("position_center");
    reveal_strlit("position_left");
    reveal_strlit("position_right");
    reveal_strlit("position_top");
    reveal_strlit("position_bottom");
    reveal_strlit("position_top_left");
    reveal_strlit("position_top_right");
    reveal_strlit("position_bottom_left");
    reveal_strlit("position_bottom_right");
    // Most ids differ in length; the three pairs of equal length differ in one character.
    assert("quit"@.len() == 4);
    assert("about"@.len() == 5);
    assert("restart"@.len() == 7);
    assert("startup"@.len() == 7);
    assert("open_config"@.len() == 11);
    assert("follow_indicator_area_theme"@.len() == 27);
    assert("follow_system_theme"@.len() == 19);
    assert("select_mouse_monitor"@.len() == 20);
    assert("select_primary_monitor"@.len() == 22);
    assert("position_center"@.len() == 15);
    assert("position_left"@.len() == 13);
    assert("position_right"@.len() == 14);
    assert("position_top"@.len() == 12);
    assert("position_bottom"@.len() == 15);
    assert("position_top_left"@.len() == 17);
    assert("position_top_right"@.len() == 18);
    assert("position_bottom_left"@.len() == 20);
    assert("position_bottom_right"@.len() == 21);
    assert("startup"@[0] != "restart"@[0]);
    assert("position_bottom"@[9] != "position_center"@[9]);
    assert("position_bottom_left"@[0] != "select_mouse_monitor"@[0]);
}

/// Two entries with the same id are the same entry.
pub proof fn lemma_id_injective(a: MenuKey, b: MenuKey)
    ensures
        a.spec_id() == b.spec_id() <==> a == b,
{
    lemma_id_round_trip(a);
    lemma_id_round_trip(b);
}

/// Each entry has its fixed id string, the one the registry knows it by, and reading that
/// string gives back the entry; every other string names no entry.
pub proof fn lemma_menu_id_table(id: Seq<char>)
    ensures
        MenuKey::Quit.spec_id() == "quit"@,
        MenuKey::spec_from_id("quit"@) == Some(MenuKey::Quit),
        MenuKey::About.spec_id() == "about"@,
        MenuKey::spec_from_id("about"@) == Some(MenuKey::About),
        MenuKey::Restart.spec_id() == "restart"@,
        MenuKey::spec_from_id("restart"@) == Some(MenuKey::Restart),
        MenuKey::Startup.spec_id() == "startup"@,
        MenuKey::spec_from_id("startup"@) == Some(MenuKey::Startup),
        MenuKey::OpenConfig.spec_id() == "open_config"@,
        MenuKey::spec_from_id("open_config"@) == Some(MenuKey::OpenConfig),
        MenuKey::FollowIndicatorAreaTheme.spec_id() == "follow_indicator_area_theme"@,
        MenuKey::spec_from_id("follow_indicator_area_theme"@) == Some(MenuKey::FollowIndicatorAreaTheme),
        MenuKey::FollowSystemTheme.spec_id() == "follow_system_theme"@,
        MenuKey::spec_from_id("follow_system_theme"@) == Some(MenuKey::FollowSystemTheme),
        MenuKey::SelectMouseMonitor.spec_id() == "select_mouse_monitor"@,
        MenuKey::spec_from_id("select_mouse_monitor"@) == Some(MenuKey::SelectMouseMonitor),
        MenuKey::SelectPrimaryMonitor.spec_id() == "select_primary_monitor"@,
        MenuKey::spec_from_id("select_primary_monitor"@) == Some(MenuKey::SelectPrimaryMonitor),
        MenuKey::Position(WindowPosition::Center).spec_id() == "position_center"@,
        MenuKey::spec_from_id("position_center"@) == Some(MenuKey::Position(WindowPosition::Center)),
        MenuKey::Position(WindowPosition::Left).spec_id() == "position_left"@,
        MenuKey::spec_from_id("position_left"@) == Some(MenuKey::Position(WindowPosition::Left)),
        MenuKey::Position(WindowPosition::Right).spec_id() == "position_right"@,
        MenuKey::spec_from_id("position_right"@) == Some(MenuKey::Position(WindowPosition::Right)),
        MenuKey::Position(WindowPosition::Top).spec_id() == "position_top"@,
        MenuKey::spec_from_id("position_top"@) == Some(MenuKey::Position(WindowPosition::Top)),
        MenuKey::Position(WindowPosition::Bottom).spec_id() == "position_bottom"@,
        MenuKey::spec_from_id("position_bottom"@) == Some(MenuKey::Position(WindowPosition::Bottom)),
        MenuKey::Position(WindowPosition::TopLeft).spec_id() == "position_top_left"@,
        MenuKey::spec_from_id("position_top_left"@) == Some(MenuKey::Position(WindowPosition::TopLeft)),
        MenuKey::Position(WindowPosition::TopRight).spec_id() == "position_top_right"@,
        MenuKey::spec_from_id("position_top_right"@) == Some(MenuKey::Position(WindowPosition::TopRight)),
        MenuKey::Position(WindowPosition::BottomLeft).spec_id() == "position_bottom_left"@,
        MenuKey::spec_from_id("position_bottom_left"@) == Some(MenuKey::Position(WindowPosition::BottomLeft)),
        MenuKey::Position(WindowPosition::BottomRight).spec_id() == "position_bottom_right"@,
        MenuKey::spec_from_id("position_bottom_right"@) == Some(MenuKey::Position(WindowPosition::BottomRight)),
        MenuKey::spec_from_id(id) is Some ==> MenuKey::spec_from_id(id)->0.spec_id() == id,
{
    if MenuKey::spec_from_id(id) is Some {
        lemma_id_round_trip(MenuKey::spec_from_id(id)->0);
    }
    lemma_id_round_trip(MenuKey::Quit);
    lemma_id_round_trip(MenuKey::About);
    lemma_id_round_trip(MenuKey::Restart);
    lemma_id_round_trip(MenuKey::Startup);
    lemma_id_round_trip(MenuKey::OpenConfig);
    lemma_id_round_trip(MenuKey::FollowIndicatorAreaTheme);
    lemma_id_round_trip(MenuKey::FollowSystemTheme);
    lemma_id_round_trip(MenuKey::SelectMouseMonitor);
    lemma_id_round_trip(MenuKey::SelectPrimaryMonitor);
    lemma_id_round_trip(MenuKey::Position(WindowPosition::Center));
    lemma_id_round_trip(MenuKey::Position(WindowPosition::Left));
    lemma_id_round_trip(MenuKey::Position(WindowPosition::Right));
    lemma_id_round_trip(MenuKey::Position(WindowPosition::Top));
    lemma_id_round_trip(MenuKey::Position(WindowPosition::Bottom));
    lemma_id_round_trip(MenuKey::Position(WindowPosition::TopLeft));
    lemma_id_round_trip(MenuKey::Position(WindowPosition::TopRight));
    lemma_id_round_trip(MenuKey::Position(WindowPosition::BottomLeft));
    lemma_id_round_trip(MenuKey::Position(WindowPosition::BottomRight));
}

} // verus!

