//! A model of the shell's observable state: the main window, the tray
//! tooltip, the stored title and whether the process has ended. Each event
//! is answered by the decisions of `dispatch`, whose actions are then applied
//! with the effect the host framework gives them.
use vstd::prelude::*;

use crate::action::Action;
use crate::dispatch::{
    menu_actions, menu_spec, second_instance_actions, second_instance_spec, tray_actions,
    tray_spec, window_actions, window_spec,
};
use crate::event::{TrayEvent, WindowEvent};
use crate::ids::DEFAULT_TITLE;
use crate::title::TrayState;

verus! {

/// What can be observed of the main window.
#[derive(Clone, Copy, Debug, PartialEq, Eq, Structural)]
pub struct MainWindow {
    pub visible: bool,
    pub minimized: bool,
    pub focused: bool,
}

/// The shell as a whole.
pub struct Shell {
    /// The main window, when it exists.
    pub window: Option<MainWindow>,
    /// The tooltip of the tray icon, when the icon exists.
    pub tooltip: Option<String>,
    /// The stored title, when the state is registered.
    pub state: Option<TrayState>,
    /// The exit code, once the process has ended.
    pub exit_code: Option<i32>,
}

/// The abstract value of a `Shell`.
pub struct ShellView {
    pub window: Option<MainWindow>,
    pub tooltip: Option<Seq<char>>,
    pub title: Option<Seq<char>>,
    pub exit_code: Option<i32>,
}

impl View for Shell {
    type V = ShellView;

    open spec fn view(&self) -> ShellView {
        ShellView {
            window: self.window,
            tooltip: match self.tooltip {
                Some(t) => Some(t@),
                None => None,
            },
            title: match self.state {
                Some(s) => Some(s@),
                None => None,
            },
            exit_code: self.exit_code,
        }
    }
}

/// The effect of one action on the main window.
pub open spec fn window_effect(w: MainWindow, a: Action) -> MainWindow {
    match a {
        Action::ShowWindow => MainWindow { visible: true, ..w },
        Action::UnminimizeWindow => MainWindow { minimized: false, ..w },
        Action::FocusWindow => MainWindow { focused: true, ..w },
        Action::HideWindow => MainWindow { visible: false, focused: false, ..w },
        _ => w,
    }
}

/// The effect of one action on the shell. Ending the process takes its
/// window and tray icon with it.
pub open spec fn apply_spec(v: ShellView, a: Action) -> ShellView {
    match a {
        Action::Exit(code) => ShellView {
            window: None,
            tooltip: None,
            exit_code: Some(code),
            ..v
        },
        _ => ShellView {
            window: match v.window {
                Some(w) => Some(window_effect(w, a)),
                None => None,
            },
            ..v
        },
    }
}

/// The effect of a sequence of actions, applied in order.
pub open spec fn apply_all(v: ShellView, s: Seq<Action>) -> ShellView
    decreases s.len(),
{
    if s.len() == 0 {
        v
    } else {
        apply_spec(apply_all(v, s.drop_last()), s.last())
    }
}

/// Whether the process has ended; an ended shell answers no event.
pub open spec fn has_exited(v: ShellView) -> bool {
    v.exit_code is Some
}

/// The shell after a selection in the tray menu.
pub open spec fn menu_step(v: ShellView, id: Seq<char>) -> ShellView {
    if has_exited(v) {
        v
    } else {
        apply_all(v, menu_spec(id, v.window is Some))
    }
}

/// The shell after an event on the tray icon.
pub open spec fn tray_step(v: ShellView, event: TrayEvent) -> ShellView {
    if has_exited(v) {
        v
    } else {
        apply_all(v, tray_spec(event, v.window is Some))
    }
}

/// The shell after an event on the main window. A close request whose
/// handling was not cancelled destroys the window, and with the last window
/// gone the process ends with code 0.
pub open spec fn window_step(v: ShellView, event: WindowEvent) -> ShellView {
    if has_exited(v) {
        v
    } else {
        let after = apply_all(v, window_spec(event));
        if event == WindowEvent::CloseRequested && !window_spec(event).contains(
            Action::PreventClose,
        ) {
            ShellView { window: None, tooltip: None, exit_code: Some(0), ..after }
        } else {
            after
        }
    }
}

/// The shell after the program was launched a second time.
pub open spec fn second_launch_step(v: ShellView) -> ShellView {
    if has_exited(v) {
        v
    } else {
        apply_all(v, second_instance_spec(v.window is Some))
    }
}

/// The shell after the tooltip-update command: the tooltip, where the tray
/// icon exists, and the stored title, where the state is registered, both
/// become the given text.
pub open spec fn title_step(v: ShellView, title: Seq<char>) -> ShellView {
    if has_exited(v) {
        v
    } else {
        ShellView {
            tooltip: match v.tooltip {
                Some(_) => Some(title),
                None => None,
            },
            title: match v.title {
                Some(_) => Some(title),
                None => None,
            },
            ..v
        }
    }
}

proof fn lemma_apply_prefix(v: ShellView, s: Seq<Action>, i: int)
    requires
        0 <= i < s.len(),
    ensures
        apply_all(v, s.take(i + 1)) == apply_spec(apply_all(v, s.take(i)), s[i]),
{
    assert(s.take(i + 1).drop_last() =~= s.take(i));
}

impl Shell {
    /// The shell right after startup: the main window shown and focused,
    /// the tray icon and the stored title holding the default title.
    pub fn start() -> (r: Shell)
        ensures
            r@.window == Some(MainWindow { visible: true, minimized: false, focused: true }),
            r@.tooltip == Some(DEFAULT_TITLE@),
            r@.title == Some(DEFAULT_TITLE@),
            r@.exit_code is None,
    {
        Shell {
            window: Some(MainWindow { visible: true, minimized: false, focused: true }),
            tooltip: Some(DEFAULT_TITLE.to_owned()),
            state: Some(TrayState::new()),
            exit_code: None,
        }
    }

    /// Applies one action.
    pub fn perform(&mut self, a: Action)
        ensures
            final(self)@ == apply_spec(old(self)@, a),
    {
        match a {
            Action::Exit(code) => {
                self.window = None;
                self.tooltip = None;
                self.exit_code = Some(code);
            },
            _ => {
                match self.window {
                    Some(w) => {
                        let nw = match a {
                            Action::ShowWindow => MainWindow { visible: true, ..w },
                            Action::UnminimizeWindow => MainWindow { minimized: false, ..w },
                            Action::FocusWindow => MainWindow { focused: true, ..w },
                            Action::HideWindow => MainWindow {
                                visible: false,
                                focused: false,
                                ..w
                            },
                            _ => w,
                        };
                        self.window = Some(nw);
                    },
                    None => {},
                }
            },
        }
    }

    /// Applies a sequence of actions in order.
    pub fn perform_all(&mut self, actions: &Vec<Action>)
        ensures
            final(self)@ == apply_all(old(self)@, actions@),
    {
        let ghost start = self@;
        let mut i: usize = 0;
        assert(actions@.take(0) =~= Seq::<Action>::empty());
        while i < actions.len()
            invariant
                0 <= i <= actions@.len(),
                self@ == apply_all(start, actions@.take(i as int)),
            decreases actions@.len() - i,
        {
            proof {
                lemma_apply_prefix(start, actions@, i as int);
            }
            self.perform(actions[i]);
            i = i + 1;
        }
        assert(actions@.take(actions@.len() as int) =~= actions@);
    }

    fn is_running(&self) -> (r: bool)
        ensures
            r == !has_exited(self@),
    {
        self.exit_code.is_none()
    }

    /// Answers a selection in the tray menu.
    pub fn select_menu(&mut self, id: &str)
        ensures
            final(self)@ == menu_step(old(self)@, id@),
    {
        if self.is_running() {
            let actions = menu_actions(id, self.window.is_some());
            self.perform_all(&actions);
        }
    }

    /// Answers an event on the tray icon.
    pub fn tray_event(&mut self, event: TrayEvent)
        ensures
            final(self)@ == tray_step(old(self)@, event),
    {
        if self.is_running() {
            let actions = tray_actions(event, self.window.is_some());
            self.perform_all(&actions);
        }
    }

    /// Answers an event on the main window.
    pub fn window_event(&mut self, event: WindowEvent)
        ensures
            final(self)@ == window_step(old(self)@, event),
    {
        if self.is_running() {
            let actions = window_actions(event);
            self.perform_all(&actions);
            if event == WindowEvent::CloseRequested && !contains_action(
                &actions,
                Action::PreventClose,
            ) {
                self.window = None;
                self.tooltip = None;
                self.exit_code = Some(0);
            }
        }
    }

    /// Answers a second launch of the program.
    pub fn second_launch(&mut self)
        ensures
            final(self)@ == second_launch_step(old(self)@),
    {
        if self.is_running() {
            let actions = second_instance_actions(self.window.is_some());
            self.perform_all(&actions);
        }
    }

    /// The tooltip-update command. It accepts any text and reports no error.
    pub fn update_tray_title(&mut self, title: String)
        ensures
            final(self)@ == title_step(old(self)@, title@),
    {
        if self.is_running() {
            if self.tooltip.is_some() {
                self.tooltip = Some(title.clone());
            }
            match &mut self.state {
                Some(st) => st.set_title(title),
                None => {},
            }
        }
    }
}

fn contains_action(actions: &Vec<Action>, a: Action) -> (r: bool)
    ensures
        r == actions@.contains(a),
{
    let mut i: usize = 0;
    while i < actions.len()
        invariant
            0 <= i <= actions@.len(),
            forall|j: int| 0 <= j < i ==> actions@[j] != a,
        decreases actions@.len() - i,
    {
        if actions[i] == a {
            return true;
        }
        i = i + 1;
    }
    false
}

} // verus!
