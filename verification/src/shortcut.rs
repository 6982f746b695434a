//! The shortcut registrar's callback side: one global key combination whose
//! activation has exactly the effect of the tray's "show" entry.

use vstd::prelude::*;
use crate::shell::{ShellModel, show_and_focus, shown_window};
use crate::tray::{lemma_show_reveals_window, tray_step};

verus! {

/// The one global key combination the registrar claims at startup.
pub fn shortcut_combination() -> (c: &'static str)
    ensures
        c@ == "Ctrl+Space"@,
{
    "Ctrl+Space"
}

/// What one shortcut activation does to the shell: the window becomes
/// visible and focused, and the process keeps running.
pub open spec fn shortcut_step(m: ShellModel) -> ShellModel {
    ShellModel { status: m.status, window: shown_window() }
}

/// Apply one activation of the global shortcut to the shell state.
pub fn handle_shortcut(m: &mut ShellModel)
    ensures
        *final(m) == shortcut_step(*old(m)),
{
    show_and_focus(&mut m.window);
}

/// The shortcut and the "show" tray entry have the identical effect: same
/// window, same visibility and focus outcome, from every prior state.
pub proof fn lemma_shortcut_matches_show(m: ShellModel)
    ensures
        shortcut_step(m) == tray_step(m, "show"@),
{
    lemma_show_reveals_window(m);
}

} // verus!
