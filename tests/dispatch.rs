use tray_shell::action::{reveal_main_window, Action};
use tray_shell::dispatch::{menu_actions, second_instance_actions, tray_actions, window_actions};
use tray_shell::event::{MouseButton, MouseButtonState, TrayEvent, WindowEvent};
use tray_shell::ids::{MENU_QUIT, MENU_SHOW};

fn front_actions() -> Vec<Action> {
    vec![Action::ShowWindow, Action::UnminimizeWindow, Action::FocusWindow]
}

#[test]
fn reveal_with_and_without_window() {
    assert_eq!(reveal_main_window(true), front_actions());
    assert_eq!(reveal_main_window(false), Vec::<Action>::new());
}

#[test]
fn menu_show_reveals_window() {
    assert_eq!(menu_actions("show", true), front_actions());
    assert_eq!(menu_actions(MENU_SHOW, true), front_actions());
}

#[test]
fn menu_show_without_window_does_nothing() {
    assert!(menu_actions("show", false).is_empty());
}

#[test]
fn menu_quit_exits_with_zero() {
    assert_eq!(menu_actions("quit", true), vec![Action::Exit(0)]);
    assert_eq!(menu_actions(MENU_QUIT, false), vec![Action::Exit(0)]);
}

#[test]
fn menu_other_ids_are_ignored() {
    assert!(menu_actions("", true).is_empty());
    assert!(menu_actions("Show", true).is_empty());
    assert!(menu_actions("quit ", true).is_empty());
    assert!(menu_actions("显示窗口", true).is_empty());
}

#[test]
fn tray_left_release_reveals_window() {
    let ev = TrayEvent::Click { button: MouseButton::Left, button_state: MouseButtonState::Up };
    assert_eq!(tray_actions(ev, true), front_actions());
    assert_eq!(tray_actions(ev, true), menu_actions("show", true));
    assert!(tray_actions(ev, false).is_empty());
}

#[test]
fn tray_other_events_are_ignored() {
    let events = vec![
        TrayEvent::Click { button: MouseButton::Left, button_state: MouseButtonState::Down },
        TrayEvent::Click { button: MouseButton::Right, button_state: MouseButtonState::Up },
        TrayEvent::Click { button: MouseButton::Right, button_state: MouseButtonState::Down },
        TrayEvent::Click { button: MouseButton::Middle, button_state: MouseButtonState::Up },
        TrayEvent::DoubleClick { button: MouseButton::Left },
        TrayEvent::Enter,
        TrayEvent::Move,
        TrayEvent::Leave,
    ];
    for ev in events {
        assert!(tray_actions(ev, true).is_empty());
    }
}

#[test]
fn close_request_hides_and_prevents_close() {
    assert_eq!(
        window_actions(WindowEvent::CloseRequested),
        vec![Action::HideWindow, Action::PreventClose]
    );
    assert!(window_actions(WindowEvent::Other).is_empty());
}

#[test]
fn second_instance_reveals_window() {
    assert_eq!(second_instance_actions(true), front_actions());
    assert!(second_instance_actions(false).is_empty());
}
