use vstd::prelude::*;

use crate::text::str_equals;

verus! {

/// An item of the tray icon's menu.
#[derive(Clone, Copy, Debug, PartialEq, Eq, Structural)]
pub enum MenuId {
    /// Shows the main window when hidden, hides it when shown.
    Toggle,
    /// Opens the settings window.
    Settings,
    /// Ends the process.
    Quit,
}

/// The identifier the host reports when an item is selected.
pub open spec fn id_text(m: MenuId) -> Seq<char> {
    match m {
        MenuId::Toggle => "toggle"@,
        MenuId::Settings => "settings"@,
        MenuId::Quit => "quit"@,
    }
}

/// The text the menu shows for an item.
pub open spec fn title_text(m: MenuId) -> Seq<char> {
    match m {
        MenuId::Toggle => "Show/Hide Luna"@,
        MenuId::Settings => "Settings"@,
        MenuId::Quit => "Quit"@,
    }
}

/// The tooltip of the tray icon.
pub open spec fn tooltip_text() -> Seq<char> {
    "ORBIT Luna - AI Desktop Companion"@
}

impl MenuId {
    /// The identifier under which the item is registered with the host.
    pub fn id(&self) -> (r: &'static str)
        ensures
            r@ == id_text(*self),
    {
        match self {
            MenuId::Toggle => "toggle",
            MenuId::Settings => "settings",
            MenuId::Quit => "quit",
        }
    }

    /// The text shown for the item.
    pub fn title(&self) -> (r: &'static str)
        ensures
            r@ == title_text(*self),
    {
        match self {
            MenuId::Toggle => "Show/Hide Luna",
            MenuId::Settings => "Settings",
            MenuId::Quit => "Quit",
        }
    }

    /// The item that an identifier reported by the host names, if any.
    pub fn from_id(id: &str) -> (r: Option<MenuId>)
        ensures
            r == menu_for_id(id@),
    {
        proof {
            reveal_strlit("toggle");
            reveal_strlit("settings");
            reveal_strlit("quit");
            assert("toggle"@.len() != "settings"@.len());
            assert("toggle"@.len() != "quit"@.len());
            assert("settings"@.len() != "quit"@.len());
        }
        if str_equals(id, "toggle") {
            Some(MenuId::Toggle)
        } else if str_equals(id, "settings") {
            Some(MenuId::Settings)
        } else if str_equals(id, "quit") {
            Some(MenuId::Quit)
        } else {
            None
        }
    }
}

/// The menu item that an identifier reported by the host names, if any.
pub open spec fn menu_for_id(id: Seq<char>) -> Option<MenuId> {
    if id == id_text(MenuId::Toggle) {
        Some(MenuId::Toggle)
    } else if id == id_text(MenuId::Settings) {
        Some(MenuId::Settings)
    } else if id == id_text(MenuId::Quit) {
        Some(MenuId::Quit)
    } else {
        None
    }
}

/// The tooltip attached to the tray icon.
pub fn tray_tooltip() -> (r: &'static str)
    ensures
        r@ == tooltip_text(),
{
    "ORBIT Luna - AI Desktop Companion"
}

/// The items of the tray menu, in order; the settings item only where a
/// settings window exists.
pub open spec fn menu_spec(with_settings: bool) -> Seq<MenuId> {
    if with_settings {
        seq![MenuId::Toggle, MenuId::Settings, MenuId::Quit]
    } else {
        seq![MenuId::Toggle, MenuId::Quit]
    }
}

/// Builds the list of tray menu items, in the order they are shown.
pub fn menu_items(with_settings: bool) -> (r: Vec<MenuId>)
    ensures
        r@ == menu_spec(with_settings),
{
    let mut items: Vec<MenuId> = Vec::new();
    items.push(MenuId::Toggle);
    if with_settings {
        items.push(MenuId::Settings);
    }
    items.push(MenuId::Quit);
    assert(items@ =~= menu_spec(with_settings));
    items
}

/// A mouse button of a click on the tray icon.
#[derive(Clone, Copy, Debug, PartialEq, Eq, Structural)]
pub enum MouseButton {
    Left,
    Right,
    Middle,
}

} // verus!
