use tray_shell::ids::{DEFAULT_TITLE, MAIN_TRAY, MAIN_WINDOW};
use tray_shell::setup::tray_setup;
use tray_shell::title::TrayState;

#[test]
fn tray_is_built_with_two_enabled_entries() {
    let t = tray_setup();
    assert_eq!(t.id, "main-tray");
    assert_eq!(t.id, MAIN_TRAY);
    assert_eq!(t.tooltip, "InspireMusic");
    assert!(!t.menu_on_left_click);
    assert_eq!(t.menu.len(), 2);
    assert_eq!(t.menu[0].id, "show");
    assert_eq!(t.menu[0].label, "显示窗口");
    assert!(t.menu[0].enabled);
    assert_eq!(t.menu[1].id, "quit");
    assert_eq!(t.menu[1].label, "退出");
    assert!(t.menu[1].enabled);
}

#[test]
fn identifiers_are_stable() {
    assert_eq!(MAIN_WINDOW, "main");
    assert_eq!(DEFAULT_TITLE, "InspireMusic");
}

#[test]
fn tray_state_starts_with_default_title() {
    assert_eq!(TrayState::new().title, "InspireMusic");
}

#[test]
fn tray_state_accepts_any_title() {
    let mut s = TrayState::new();
    s.set_title(String::new());
    assert_eq!(s.title, "");
    s.set_title("正在播放".to_string());
    assert_eq!(s.title, "正在播放");
}
