//! The observable state of the shell: whether the process is running and
//! what the main window shows. The host framework owns the real window;
//! these values model the visibility and focus the shell asks of it.

use vstd::prelude::*;

verus! {

/// Whether the main window is visible and whether it holds input focus.
#[derive(Clone, Copy, PartialEq, Eq, Structural, Debug)]
pub struct WindowState {
    pub visible: bool,
    pub focused: bool,
}

/// Whether the process is still running, or has exited and with which code.
#[derive(Clone, Copy, PartialEq, Eq, Structural, Debug)]
pub enum ProcessStatus {
    Running,
    Exited(i32),
}

/// The whole observable state: process status and main-window state.
#[derive(Clone, Copy, PartialEq, Eq, Structural, Debug)]
pub struct ShellModel {
    pub status: ProcessStatus,
    pub window: WindowState,
}

/// A window that has just been shown and focused.
pub open spec fn shown_window() -> WindowState {
    WindowState { visible: true, focused: true }
}

/// Make the window visible and give it input focus, whatever its prior
/// state; doing so when it is already visible changes nothing further.
pub fn show_and_focus(w: &mut WindowState)
    ensures
        *final(w) == shown_window(),
{
    w.visible = true;
    w.focused = true;
}

/// The state when the event loop starts: the process runs, and the window
/// is as the host created it.
pub fn initial_shell(window: WindowState) -> (m: ShellModel)
    ensures
        m == (ShellModel { status: ProcessStatus::Running, window }),
{
    ShellModel { status: ProcessStatus::Running, window }
}

} // verus!
