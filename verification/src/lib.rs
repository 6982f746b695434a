//! Core of a minimal desktop shell: a tray menu whose entries quit the
//! process or reveal the main window, one global shortcut with the same
//! show-and-focus effect, a startup step that tolerates a failed shortcut
//! registration, and a greeting exposed to the presentation layer.
//!
//! The host GUI framework owns the event loop, the tray surface and the
//! window itself; this crate holds the decisions. An embedding binary feeds
//! each tray or shortcut activation to the dispatcher here and performs the
//! action it returns.

pub mod greeting;
pub mod shell;
pub mod shortcut;
pub mod startup;
pub mod tray;
