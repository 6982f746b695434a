//! The tray controller: the fixed two-entry menu and the dispatcher that
//! maps an activated menu identifier to its effect on the shell.

use vstd::prelude::*;
use vstd::string::StringExecFns;
use crate::shell::{ProcessStatus, ShellModel, show_and_focus, shown_window};

verus! {

/// One entry of the tray menu: a stable identifier and a visible label.
#[derive(Debug)]
pub struct MenuItem {
    pub identifier: String,
    pub label: String,
}

/// No two entries of a menu share an identifier.
pub open spec fn identifiers_unique(items: Seq<MenuItem>) -> bool {
    forall|i: int, j: int|
        0 <= i < j < items.len() ==> items[i].identifier@ != items[j].identifier@
}

/// The fixed menu: "Show" first, then "Quit", with distinct identifiers.
pub fn tray_menu_items() -> (items: Vec<MenuItem>)
    ensures
        items@.len() == 2,
        items@[0].identifier@ == "show"@,
        items@[0].label@ == "Show"@,
        items@[1].identifier@ == "quit"@,
        items@[1].label@ == "Quit"@,
        identifiers_unique(items@),
{
    let show = MenuItem {
        identifier: String::from_str("show"),
        label: String::from_str("Show"),
    };
    let quit = MenuItem {
        identifier: String::from_str("quit"),
        label: String::from_str("Quit"),
    };
    let mut items: Vec<MenuItem> = Vec::new();
    items.push(show);
    items.push(quit);
    proof {
        lemma_show_quit_distinct();
    }
    items
}

/// The two menu identifiers differ: their first characters do.
proof fn lemma_show_quit_distinct()
    ensures
        "show"@ != "quit"@,
{
    reveal_strlit("show");
    reveal_strlit("quit");
    assert("show"@[0] == 's');
    assert("quit"@[0] == 'q');
}

/// The action bound to a tray-menu identifier.
#[derive(Clone, Copy, PartialEq, Eq, Structural, Debug)]
pub enum TrayAction {
    /// Terminate the process immediately with exit code 0.
    Quit,
    /// Show the main window and give it input focus.
    ShowAndFocus,
    /// Any identifier outside the menu: do nothing.
    NoOp,
}

/// Which action an identifier selects: "quit" quits, "show" shows, and
/// every other identifier is left alone.
pub open spec fn action_of(id: Seq<char>) -> TrayAction {
    if id == "quit"@ {
        TrayAction::Quit
    } else if id == "show"@ {
        TrayAction::ShowAndFocus
    } else {
        TrayAction::NoOp
    }
}

/// String equality by content.
fn str_eq(a: &str, b: &str) -> (r: bool)
    ensures
        r == (a@ == b@),
{
    let sa = String::from_str(a);
    let sb = String::from_str(b);
    sa.eq(&sb)
}

/// Map a menu identifier to its action.
pub fn dispatch_tray(id: &str) -> (a: TrayAction)
    ensures
        a == action_of(id@),
{
    if str_eq(id, "quit") {
        TrayAction::Quit
    } else if str_eq(id, "show") {
        TrayAction::ShowAndFocus
    } else {
        TrayAction::NoOp
    }
}

/// What one tray activation does to the shell: quit exits with code 0 and
/// touches nothing else, show reveals and focuses the window, and an
/// unknown identifier changes nothing.
pub open spec fn tray_step(m: ShellModel, id: Seq<char>) -> ShellModel {
    match action_of(id) {
        TrayAction::Quit => ShellModel { status: ProcessStatus::Exited(0), window: m.window },
        TrayAction::ShowAndFocus => ShellModel { status: m.status, window: shown_window() },
        TrayAction::NoOp => m,
    }
}

/// Apply one tray activation to the shell state.
pub fn handle_tray_event(m: &mut ShellModel, id: &str)
    ensures
        *final(m) == tray_step(*old(m), id@),
{
    match dispatch_tray(id) {
        TrayAction::Quit => {
            m.status = ProcessStatus::Exited(0);
        },
        TrayAction::ShowAndFocus => {
            show_and_focus(&mut m.window);
        },
        TrayAction::NoOp => {},
    }
}

/// Activating "quit" terminates the process with exit code 0 and performs
/// no other observable action: the window is left exactly as it was.
pub proof fn lemma_quit_exits(m: ShellModel)
    ensures
        tray_step(m, "quit"@) == (ShellModel {
            status: ProcessStatus::Exited(0),
            window: m.window,
        }),
{
}

/// Activating "show" makes the window visible and focused whatever its
/// prior state, and the process keeps running.
pub proof fn lemma_show_reveals_window(m: ShellModel)
    ensures
        tray_step(m, "show"@) == (ShellModel { status: m.status, window: shown_window() }),
{
    lemma_show_quit_distinct();
}

/// Showing an already visible, focused window changes nothing: one "show"
/// after another lands in the same state as the first alone.
pub proof fn lemma_show_idempotent(m: ShellModel)
    ensures
        tray_step(tray_step(m, "show"@), "show"@) == tray_step(m, "show"@),
{
    lemma_show_quit_distinct();
}

/// An identifier outside the menu is a no-op: no state change, no error.
pub proof fn lemma_unknown_is_noop(m: ShellModel, id: Seq<char>)
    requires
        id != "quit"@,
        id != "show"@,
    ensures
        tray_step(m, id) == m,
{
}

} // verus!
