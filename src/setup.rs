//! What the tray icon and its menu are built from at startup.
use vstd::prelude::*;

use crate::ids::{DEFAULT_TITLE, MAIN_TRAY, MENU_QUIT, MENU_SHOW, QUIT_LABEL, SHOW_LABEL};

verus! {

/// One entry of the tray menu.
pub struct MenuEntry {
    pub id: String,
    pub label: String,
    pub enabled: bool,
}

/// Everything the tray icon is built from.
pub struct TraySetup {
    pub id: String,
    pub tooltip: String,
    /// Whether a left click opens the menu; the shell handles that click itself.
    pub menu_on_left_click: bool,
    pub menu: Vec<MenuEntry>,
}

/// Whether an entry has the given identifier and label and is enabled.
pub open spec fn entry_is(e: MenuEntry, id: Seq<char>, label: Seq<char>) -> bool {
    e.id@ == id && e.label@ == label && e.enabled
}

/// The tray icon of the shell: identifier "main-tray", the default title as
/// tooltip, the left click kept for the shell, and a menu of two enabled
/// entries, "show" then "quit".
pub fn tray_setup() -> (r: TraySetup)
    ensures
        r.id@ == MAIN_TRAY@,
        r.tooltip@ == DEFAULT_TITLE@,
        !r.menu_on_left_click,
        r.menu@.len() == 2,
        entry_is(r.menu@[0], MENU_SHOW@, SHOW_LABEL@),
        entry_is(r.menu@[1], MENU_QUIT@, QUIT_LABEL@),
{
    let show = MenuEntry {
        id: MENU_SHOW.to_owned(),
        label: SHOW_LABEL.to_owned(),
        enabled: true,
    };
    let quit = MenuEntry {
        id: MENU_QUIT.to_owned(),
        label: QUIT_LABEL.to_owned(),
        enabled: true,
    };
    let mut menu: Vec<MenuEntry> = Vec::new();
    menu.push(show);
    menu.push(quit);
    TraySetup {
        id: MAIN_TRAY.to_owned(),
        tooltip: DEFAULT_TITLE.to_owned(),
        menu_on_left_click: false,
        menu,
    }
}

} // verus!
