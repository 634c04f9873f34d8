//! The shell's answer to each event, as the list of actions to perform.
use vstd::prelude::*;

use crate::action::{reveal_main_window, reveal_spec, Action};
use crate::event::{MouseButton, MouseButtonState, TrayEvent, WindowEvent};
use crate::ids::{MENU_QUIT, MENU_SHOW};

verus! {

/// Actions for a selection in the tray menu: "show" brings the main window
/// back, "quit" ends the process with code 0, any other identifier is ignored.
pub open spec fn menu_spec(id: Seq<char>, window_present: bool) -> Seq<Action> {
    if id == MENU_SHOW@ {
        reveal_spec(window_present)
    } else if id == MENU_QUIT@ {
        seq![Action::Exit(0)]
    } else {
        Seq::empty()
    }
}

/// Whether a tray event is the release of the left button.
pub open spec fn is_left_release(event: TrayEvent) -> bool {
    event == (TrayEvent::Click { button: MouseButton::Left, button_state: MouseButtonState::Up })
}

/// Actions for an event on the tray icon: only a left-button release acts.
pub open spec fn tray_spec(event: TrayEvent, window_present: bool) -> Seq<Action> {
    if is_left_release(event) {
        reveal_spec(window_present)
    } else {
        Seq::empty()
    }
}

/// Actions for a window event: a close request hides the window and
/// cancels the close; other events are left to the framework.
pub open spec fn window_spec(event: WindowEvent) -> Seq<Action> {
    match event {
        WindowEvent::CloseRequested => seq![Action::HideWindow, Action::PreventClose],
        WindowEvent::Other => Seq::empty(),
    }
}

/// Actions when the program is launched again while this instance runs.
pub open spec fn second_instance_spec(window_present: bool) -> Seq<Action> {
    reveal_spec(window_present)
}

fn same_text(a: &str, b: &str) -> (r: bool)
    ensures
        r == (a@ == b@),
{
    a.to_owned() == b.to_owned()
}

/// Decides what a tray-menu selection does.
pub fn menu_actions(id: &str, window_present: bool) -> (r: Vec<Action>)
    ensures
        r@ == menu_spec(id@, window_present),
{
    if same_text(id, MENU_SHOW) {
        reveal_main_window(window_present)
    } else if same_text(id, MENU_QUIT) {
        let r: Vec<Action> = vec![Action::Exit(0)];
        assert(r@ =~= menu_spec(id@, window_present));
        r
    } else {
        Vec::new()
    }
}

/// Decides what an event on the tray icon does.
pub fn tray_actions(event: TrayEvent, window_present: bool) -> (r: Vec<Action>)
    ensures
        r@ == tray_spec(event, window_present),
{
    match event {
        TrayEvent::Click { button: MouseButton::Left, button_state: MouseButtonState::Up } => {
            reveal_main_window(window_present)
        },
        _ => Vec::new(),
    }
}

/// Decides what a window event does.
pub fn window_actions(event: WindowEvent) -> (r: Vec<Action>)
    ensures
        r@ == window_spec(event),
{
    match event {
        WindowEvent::CloseRequested => {
            let r: Vec<Action> = vec![Action::HideWindow, Action::PreventClose];
            assert(r@ =~= window_spec(event));
            r
        },
        WindowEvent::Other => Vec::new(),
    }
}

/// Decides what a second launch of the program does to this instance.
pub fn second_instance_actions(window_present: bool) -> (r: Vec<Action>)
    ensures
        r@ == second_instance_spec(window_present),
{
    reveal_main_window(window_present)
}

} // verus!
