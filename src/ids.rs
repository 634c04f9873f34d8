//! Stable identifiers and fixed texts of the shell.
use vstd::prelude::*;

verus! {

/// Label of the main window.
pub const MAIN_WINDOW: &'static str = "main";

/// Identifier of the tray icon.
pub const MAIN_TRAY: &'static str = "main-tray";

/// Menu identifier of the entry that brings the main window back.
pub const MENU_SHOW: &'static str = "show";

/// Menu identifier of the entry that ends the process.
pub const MENU_QUIT: &'static str = "quit";

/// Label of the menu entry that brings the main window back.
pub const SHOW_LABEL: &'static str = "显示窗口";

/// Label of the menu entry that ends the process.
pub const QUIT_LABEL: &'static str = "退出";

/// Tooltip of the tray icon, and the stored title, at startup.
pub const DEFAULT_TITLE: &'static str = "InspireMusic";

} // verus!
