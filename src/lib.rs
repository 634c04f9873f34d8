//! Decision logic of a tray-resident desktop shell: what the shell does in
//! answer to tray-menu selections, tray-icon clicks, window events, a second
//! launch of the program and the tooltip-update command, together with a
//! model of the shell's observable state on which its laws are proved.
pub mod action;
pub mod dispatch;
pub mod event;
pub mod ids;
pub mod laws;
pub mod model;
pub mod setup;
pub mod title;
