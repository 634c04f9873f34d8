//! The stored tray title.
use vstd::prelude::*;

use crate::ids::DEFAULT_TITLE;

verus! {

/// The title that the tray tooltip is meant to show, kept by the shell.
pub struct TrayState {
    pub title: String,
}

impl View for TrayState {
    type V = Seq<char>;

    open spec fn view(&self) -> Seq<char> {
        self.title@
    }
}

impl TrayState {
    /// The state at startup, holding the default title.
    pub fn new() -> (r: TrayState)
        ensures
            r@ == DEFAULT_TITLE@,
    {
        TrayState { title: DEFAULT_TITLE.to_owned() }
    }

    /// Replaces the stored title; any text is accepted.
    pub fn set_title(&mut self, title: String)
        ensures
            final(self)@ == title@,
    {
        self.title = title;
    }
}

} // verus!
