use tars_shell::shell::{ProcessStatus, ShellModel, WindowState};
use tars_shell::tray::{dispatch_tray, handle_tray_event, tray_menu_items, TrayAction};

fn hidden_shell() -> ShellModel {
    ShellModel {
        status: ProcessStatus::Running,
        window: WindowState { visible: false, focused: false },
    }
}

#[test]
fn menu_has_show_then_quit() {
    let items = tray_menu_items();
    assert_eq!(items.len(), 2);
    assert_eq!(items[0].identifier, "show");
    assert_eq!(items[0].label, "Show");
    assert_eq!(items[1].identifier, "quit");
    assert_eq!(items[1].label, "Quit");
}

#[test]
fn menu_identifiers_are_unique() {
    let items = tray_menu_items();
    assert_ne!(items[0].identifier, items[1].identifier);
}

#[test]
fn dispatch_quit() {
    assert_eq!(dispatch_tray("quit"), TrayAction::Quit);
}

#[test]
fn dispatch_show() {
    assert_eq!(dispatch_tray("show"), TrayAction::ShowAndFocus);
}

#[test]
fn dispatch_unknown() {
    assert_eq!(dispatch_tray("close"), TrayAction::NoOp);
    assert_eq!(dispatch_tray(""), TrayAction::NoOp);
    assert_eq!(dispatch_tray("Show"), TrayAction::NoOp);
    assert_eq!(dispatch_tray("quit "), TrayAction::NoOp);
}

#[test]
fn quit_exits_with_code_zero_and_nothing_else() {
    let mut shell = hidden_shell();
    handle_tray_event(&mut shell, "quit");
    assert_eq!(shell.status, ProcessStatus::Exited(0));
    assert!(!shell.window.visible);
    assert!(!shell.window.focused);
}

#[test]
fn show_reveals_hidden_window() {
    let mut shell = hidden_shell();
    handle_tray_event(&mut shell, "show");
    assert_eq!(shell.status, ProcessStatus::Running);
    assert!(shell.window.visible);
    assert!(shell.window.focused);
}

#[test]
fn show_is_idempotent_when_already_visible() {
    let mut shell = hidden_shell();
    handle_tray_event(&mut shell, "show");
    let once = shell;
    handle_tray_event(&mut shell, "show");
    assert_eq!(shell, once);
}

#[test]
fn unknown_identifier_is_a_no_op() {
    let mut shell = hidden_shell();
    let before = shell;
    handle_tray_event(&mut shell, "restart");
    assert_eq!(shell, before);
}
