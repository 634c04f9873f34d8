//! Laws of the shell, proved over the model.
use vstd::prelude::*;

use crate::action::{reveal_spec, Action};
use crate::dispatch::menu_spec;
use crate::event::{MouseButton, MouseButtonState, TrayEvent, WindowEvent};
use crate::ids::{MENU_QUIT, MENU_SHOW};
use crate::model::{
    apply_all, apply_spec, has_exited, menu_step, second_launch_step, title_step, tray_step, window_step,
    MainWindow, ShellView,
};

verus! {

proof fn lemma_menu_ids_differ()
    ensures
        MENU_SHOW@ != MENU_QUIT@,
{
    reveal_strlit("show");
    reveal_strlit("quit");
    assert(MENU_SHOW@[0] != MENU_QUIT@[0]);
}

proof fn lemma_apply_one(v: ShellView, a: Action)
    ensures
        apply_all(v, seq![a]) == apply_spec(v, a),
{
    assert(seq![a].drop_last() =~= Seq::<Action>::empty());
    assert(apply_all(v, Seq::<Action>::empty()) == v);
}

/// Bringing the main window back leaves it visible, unminimized and
/// focused, and touches nothing else; without a window it does nothing.
proof fn lemma_reveal_effect(v: ShellView)
    requires
        !has_exited(v),
    ensures
        apply_all(v, reveal_spec(v.window is Some)) == (ShellView {
            window: match v.window {
                Some(_) => Some(MainWindow { visible: true, minimized: false, focused: true }),
                None => None,
            },
            ..v
        }),
{
    let s = reveal_spec(v.window is Some);
    if v.window is Some {
        let s2 = seq![Action::ShowWindow, Action::UnminimizeWindow];
        assert(s.drop_last() =~= s2);
        assert(s2.drop_last() =~= seq![Action::ShowWindow]);
        lemma_apply_one(v, Action::ShowWindow);
        assert(apply_all(v, s2) == apply_spec(apply_all(v, seq![Action::ShowWindow]), s2.last()));
    } else {
        assert(apply_all(v, s) == v);
    }
}

/// The tooltip-update command, on a running shell whose tray icon exists,
/// leaves the tooltip reading exactly the given text, whatever it is.
pub proof fn tooltip_reads_back(v: ShellView, title: Seq<char>)
    requires
        !has_exited(v),
        v.tooltip is Some,
    ensures
        title_step(v, title).tooltip == Some(title),
        title_step(v, title).window == v.window,
        !has_exited(title_step(v, title)),
{
}

/// Selecting "quit" ends the process with code 0, whatever the state of
/// the main window.
pub proof fn quit_always_exits(v: ShellView)
    requires
        !has_exited(v),
    ensures
        menu_step(v, MENU_QUIT@).exit_code == Some(0i32),
        menu_step(v, MENU_QUIT@).window is None,
{
    lemma_menu_ids_differ();
    lemma_apply_one(v, Action::Exit(0));
}

/// Selecting "show" while no main window exists changes nothing.
pub proof fn show_without_window_is_noop(v: ShellView)
    requires
        v.window is None,
    ensures
        menu_spec(MENU_SHOW@, false) == Seq::<Action>::empty(),
        menu_step(v, MENU_SHOW@) == v,
{
}

/// A close request on the main window neither destroys it nor ends the
/// process: the window becomes hidden, and selecting "show" afterwards
/// makes it visible, unminimized and focused again.
pub proof fn close_hides_and_show_restores(v: ShellView)
    requires
        !has_exited(v),
        v.window is Some,
    ensures
        window_step(v, WindowEvent::CloseRequested).window is Some,
        !window_step(v, WindowEvent::CloseRequested).window.unwrap().visible,
        !has_exited(window_step(v, WindowEvent::CloseRequested)),
        menu_step(window_step(v, WindowEvent::CloseRequested), MENU_SHOW@).window == Some(
            MainWindow { visible: true, minimized: false, focused: true },
        ),
{
    let s = seq![Action::HideWindow, Action::PreventClose];
    assert(s.drop_last() =~= seq![Action::HideWindow]);
    lemma_apply_one(v, Action::HideWindow);
    assert(s[1] == Action::PreventClose);
    let c = window_step(v, WindowEvent::CloseRequested);
    lemma_reveal_effect(c);
}

/// A second launch creates no window and ends nothing: an existing main
/// window becomes visible, unminimized and focused, and all else stays.
pub proof fn second_launch_reveals(v: ShellView)
    requires
        !has_exited(v),
    ensures
        (second_launch_step(v).window is Some) == (v.window is Some),
        v.window is Some ==> second_launch_step(v).window == Some(
            MainWindow { visible: true, minimized: false, focused: true },
        ),
        second_launch_step(v).tooltip == v.tooltip,
        second_launch_step(v).title == v.title,
        !has_exited(second_launch_step(v)),
{
    lemma_reveal_effect(v);
}

/// Releasing the left button on the tray icon has exactly the effect of
/// selecting "show".
pub proof fn left_release_matches_show(v: ShellView)
    ensures
        tray_step(
            v,
            TrayEvent::Click { button: MouseButton::Left, button_state: MouseButtonState::Up },
        ) == menu_step(v, MENU_SHOW@),
{
}

/// A click of the right button on the tray icon changes nothing.
pub proof fn right_click_does_nothing(v: ShellView, state: MouseButtonState)
    ensures
        tray_step(v, TrayEvent::Click { button: MouseButton::Right, button_state: state }) == v,
{
}

} // verus!
