use tray_shell::{
    menu_event, tray_menu, ShellAction, ShellEvent, TrayShell, WindowState, MAIN_WINDOW,
    MENU_QUIT, MENU_SHOW, TRAY_ID,
};

#[test]
fn new_shell_keeps_initial_window_and_runs() {
    let s = TrayShell::new(WindowState::Visible);
    assert_eq!(s.window, WindowState::Visible);
    assert_eq!(s.exit_code, None);
    assert!(s.is_running());
    let h = TrayShell::new(WindowState::Hidden);
    assert_eq!(h.window, WindowState::Hidden);
}

#[test]
fn close_request_hides_and_keeps_running() {
    for start in [WindowState::Visible, WindowState::Hidden] {
        let mut s = TrayShell::new(start);
        let a = s.step(ShellEvent::CloseRequested);
        assert_eq!(a, ShellAction::HideAndPreventClose);
        assert_eq!(s.window, WindowState::Hidden);
        assert!(s.is_running());
    }
}

#[test]
fn repeated_close_requests_never_exit() {
    let mut s = TrayShell::new(WindowState::Visible);
    for _ in 0..5 {
        assert_eq!(s.step(ShellEvent::CloseRequested), ShellAction::HideAndPreventClose);
    }
    assert_eq!(s.window, WindowState::Hidden);
    assert_eq!(s.exit_code, None);
}

#[test]
fn show_after_hide_makes_window_visible() {
    let mut s = TrayShell::new(WindowState::Visible);
    s.step(ShellEvent::CloseRequested);
    let a = s.step(ShellEvent::ShowRequested);
    assert_eq!(a, ShellAction::ShowAndFocus);
    assert_eq!(s.window, WindowState::Visible);
    assert!(s.is_running());
}

#[test]
fn show_when_already_visible_stays_visible() {
    let mut s = TrayShell::new(WindowState::Visible);
    assert_eq!(s.step(ShellEvent::ShowRequested), ShellAction::ShowAndFocus);
    assert_eq!(s, TrayShell::new(WindowState::Visible));
}

#[test]
fn quit_exits_with_zero_from_any_state() {
    for start in [WindowState::Visible, WindowState::Hidden] {
        let mut s = TrayShell::new(start);
        let a = s.step(ShellEvent::QuitRequested);
        assert_eq!(a, ShellAction::Exit(0));
        assert_eq!(s.exit_code, Some(0));
        assert_eq!(s.window, start);
        assert!(!s.is_running());
    }
}

#[test]
fn menu_ids_map_to_events() {
    assert_eq!(menu_event("show"), Some(ShellEvent::ShowRequested));
    assert_eq!(menu_event("quit"), Some(ShellEvent::QuitRequested));
    assert_eq!(menu_event("Show"), None);
    assert_eq!(menu_event(""), None);
    assert_eq!(menu_event("quit "), None);
}

#[test]
fn menu_selection_show_after_hide() {
    let mut s = TrayShell::new(WindowState::Visible);
    s.step(ShellEvent::CloseRequested);
    assert_eq!(s.on_menu("show"), Some(ShellAction::ShowAndFocus));
    assert_eq!(s.window, WindowState::Visible);
}

#[test]
fn menu_selection_quit_exits() {
    let mut s = TrayShell::new(WindowState::Hidden);
    assert_eq!(s.on_menu("quit"), Some(ShellAction::Exit(0)));
    assert_eq!(s.exit_code, Some(0));
}

#[test]
fn unknown_menu_selection_changes_nothing() {
    let mut s = TrayShell::new(WindowState::Hidden);
    assert_eq!(s.on_menu("settings"), None);
    assert_eq!(s, TrayShell::new(WindowState::Hidden));
}

#[test]
fn tray_menu_has_show_then_quit() {
    let m = tray_menu();
    assert_eq!(m.len(), 2);
    assert_eq!(m[0].id, "show");
    assert_eq!(m[0].label, "Göster");
    assert_eq!(m[1].id, "quit");
    assert_eq!(m[1].label, "Çıkış");
}

#[test]
fn identifiers() {
    assert_eq!(MAIN_WINDOW, "main");
    assert_eq!(TRAY_ID, "main-tray");
    assert_eq!(MENU_SHOW, "show");
    assert_eq!(MENU_QUIT, "quit");
}
