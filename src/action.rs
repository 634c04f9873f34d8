//! The effects that the shell asks of the host framework.
use vstd::prelude::*;

verus! {

/// One effect on the main window or on the process.
#[derive(Clone, Copy, Debug, PartialEq, Eq, Structural)]
pub enum Action {
    /// Make the main window visible.
    ShowWindow,
    /// Take the main window out of the minimized state.
    UnminimizeWindow,
    /// Give the main window the input focus.
    FocusWindow,
    /// Hide the main window without destroying it.
    HideWindow,
    /// Cancel the default handling of a close request.
    PreventClose,
    /// End the process with the given exit code.
    Exit(i32),
}

/// The sequence that brings the main window to the front, when it exists.
pub open spec fn reveal_spec(window_present: bool) -> Seq<Action> {
    if window_present {
        seq![Action::ShowWindow, Action::UnminimizeWindow, Action::FocusWindow]
    } else {
        Seq::empty()
    }
}

/// Shows, unminimizes and focuses the main window; nothing when it is absent.
pub fn reveal_main_window(window_present: bool) -> (r: Vec<Action>)
    ensures
        r@ == reveal_spec(window_present),
{
    let mut r: Vec<Action> = Vec::new();
    if window_present {
        r.push(Action::ShowWindow);
        r.push(Action::UnminimizeWindow);
        r.push(Action::FocusWindow);
        assert(r@ =~= reveal_spec(window_present));
    }
    r
}

} // verus!
