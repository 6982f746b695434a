//! The startup step: digest the single shortcut-registration attempt. A
//! refused registration is non-fatal: it costs one diagnostic line and the
//! shortcut, nothing more, and the shell still reaches its running state.

use vstd::prelude::*;
use vstd::string::StringExecFns;
use crate::shell::{ProcessStatus, ShellModel, WindowState};

verus! {

/// The diagnostic line written to standard error when registration fails.
pub open spec fn registration_diagnostic(err: Seq<char>) -> Seq<char> {
    "Error registering global shortcut: "@ + err
}

/// What startup decided: the shell state the event loop begins in, whether
/// the global shortcut is active, and the diagnostic lines to write.
pub struct StartupPlan {
    pub shell: ShellModel,
    pub shortcut_active: bool,
    pub diagnostics: Vec<String>,
}

/// Turn the one registration attempt into a startup plan. Whatever the
/// attempt returned, the shell starts running with the window as the host
/// created it; registration is never retried. Success activates the
/// shortcut and writes nothing; failure leaves the shortcut inactive and
/// writes exactly one line naming the error.
pub fn plan_startup(registration: Result<(), String>, window: WindowState) -> (p: StartupPlan)
    ensures
        p.shell == (ShellModel { status: ProcessStatus::Running, window }),
        registration is Ok ==> p.shortcut_active && p.diagnostics@.len() == 0,
        registration is Err ==> !p.shortcut_active && p.diagnostics@.len() == 1
            && p.diagnostics@[0]@ == registration_diagnostic(registration->Err_0@),
{
    let shell = ShellModel { status: ProcessStatus::Running, window };
    match registration {
        Ok(()) => StartupPlan { shell, shortcut_active: true, diagnostics: Vec::new() },
        Err(e) => {
            let mut line = String::from_str("Error registering global shortcut: ");
            line.append(e.as_str());
            let mut diagnostics: Vec<String> = Vec::new();
            diagnostics.push(line);
            StartupPlan { shell, shortcut_active: false, diagnostics }
        },
    }
}

} // verus!
