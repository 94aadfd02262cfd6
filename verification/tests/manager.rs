use codex_plus_core::manager::{
    eq_ignore_ascii_case_text, find_other_manager, guard_failure_plan, main_window_url,
    tray_event_shows_window, GuardErrorKind, GuardFallback, MainWindowEvent, ManagerState,
    ProcessEntry, TrayMenuAction, TrayPointerEvent, WindowEventAction, TRAY_ID, TRAY_MENU_QUIT,
    TRAY_MENU_SHOW,
};

#[test]
fn start_page() {
    assert_eq!(main_window_url(true), "/index.html?showUpdate=1");
    assert_eq!(main_window_url(false), "/index.html");
}

#[test]
fn tray_ids() {
    assert_eq!(TRAY_ID, "codex_plus_tray");
    assert_eq!(TRAY_MENU_SHOW, "tray_show_main");
    assert_eq!(TRAY_MENU_QUIT, "tray_quit_app");
}

#[test]
fn tray_menu_entries() {
    let mut s = ManagerState::new();
    assert_eq!(s.on_tray_menu("tray_show_main"), TrayMenuAction::ShowMainWindow);
    assert!(!s.exiting);
    assert_eq!(s.on_tray_menu("something_else"), TrayMenuAction::Ignore);
    assert!(!s.exiting);
    assert_eq!(s.on_tray_menu("tray_quit_app"), TrayMenuAction::QuitApp);
    assert!(s.exiting);
}

#[test]
fn closing_hides_until_quit() {
    let mut s = ManagerState::new();
    assert_eq!(s.on_main_window_event(MainWindowEvent::CloseRequested), WindowEventAction::PreventCloseAndHide);
    s.on_tray_menu(TRAY_MENU_QUIT);
    assert_eq!(s.on_main_window_event(MainWindowEvent::CloseRequested), WindowEventAction::Proceed);
}

#[test]
fn exit_command_lets_close_through() {
    let mut s = ManagerState::new();
    s.on_exit_command();
    assert!(s.exiting);
    assert_eq!(s.on_main_window_event(MainWindowEvent::CloseRequested), WindowEventAction::Proceed);
}

#[test]
fn minimizing_hides() {
    let s = ManagerState::new();
    assert_eq!(s.on_main_window_event(MainWindowEvent::Resized { minimized: true }), WindowEventAction::Hide);
    assert_eq!(s.on_main_window_event(MainWindowEvent::Resized { minimized: false }), WindowEventAction::Proceed);
    assert_eq!(s.on_main_window_event(MainWindowEvent::Other), WindowEventAction::Proceed);
}

#[test]
fn tray_icon_clicks() {
    assert!(tray_event_shows_window(TrayPointerEvent::Click { left_button: true, released: true }));
    assert!(!tray_event_shows_window(TrayPointerEvent::Click { left_button: true, released: false }));
    assert!(!tray_event_shows_window(TrayPointerEvent::Click { left_button: false, released: true }));
    assert!(tray_event_shows_window(TrayPointerEvent::DoubleClick { left_button: true }));
    assert!(!tray_event_shows_window(TrayPointerEvent::DoubleClick { left_button: false }));
    assert!(!tray_event_shows_window(TrayPointerEvent::Other));
}

#[test]
fn ascii_case_is_ignored() {
    assert!(eq_ignore_ascii_case_text("Codex-Plus-Plus-Manager.EXE", "codex-plus-plus-manager.exe"));
    assert!(!eq_ignore_ascii_case_text("codex-plus-plus-manager.ex", "codex-plus-plus-manager.exe"));
    assert!(eq_ignore_ascii_case_text("É", "É"));
    assert!(!eq_ignore_ascii_case_text("É", "é"));
}

fn entry(pid: u32, exe: &str) -> ProcessEntry {
    ProcessEntry { process_id: pid, exe_file: exe.to_string() }
}

#[test]
fn other_manager_is_found() {
    let ps = vec![
        entry(4, "System"),
        entry(100, "codex-plus-plus-manager.exe"),
        entry(200, "CODEX-PLUS-PLUS-MANAGER.EXE"),
        entry(300, "codex-plus-plus-manager.exe"),
    ];
    assert_eq!(find_other_manager(&ps, 100), Some(200));
    assert_eq!(find_other_manager(&ps, 999), Some(100));
    assert_eq!(find_other_manager(&ps[..1].to_vec(), 1), None);
    assert_eq!(find_other_manager(&vec![entry(7, "codex-plus-plus-manager.exe")], 7), None);
}

#[test]
fn guard_failures() {
    assert_eq!(guard_failure_plan(GuardErrorKind::AddrInUse), GuardFallback::FocusRunningManager);
    assert_eq!(guard_failure_plan(GuardErrorKind::WouldBlock), GuardFallback::FocusRunningManager);
    assert_eq!(guard_failure_plan(GuardErrorKind::Other), GuardFallback::UseEphemeralPort);
}
