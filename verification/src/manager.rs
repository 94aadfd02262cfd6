//! Decisions of the manager window: its start page, the tray menu and tray
//! icon, hiding instead of closing, and what to do when another manager runs.

use vstd::prelude::*;
use crate::text::{chars_of, same_text};

verus! {

broadcast use vstd::string::group_string_axioms;

/// The id of the manager's tray icon.
pub const TRAY_ID: &'static str = "codex_plus_tray";

/// The id of the tray menu entry that shows the main window.
pub const TRAY_MENU_SHOW: &'static str = "tray_show_main";

/// The id of the tray menu entry that quits the manager.
pub const TRAY_MENU_QUIT: &'static str = "tray_quit_app";

/// The page the main window opens on.
pub open spec fn main_window_url_text(show_update: bool) -> Seq<char> {
    if show_update {
        "/index.html?showUpdate=1"@
    } else {
        "/index.html"@
    }
}

/// The page the main window opens on; it asks for the update dialog when an
/// update is to be shown at start-up.
pub fn main_window_url(show_update: bool) -> (r: &'static str)
    ensures
        r@ == main_window_url_text(show_update),
{
    if show_update {
        "/index.html?showUpdate=1"
    } else {
        "/index.html"
    }
}

/// What a tray menu entry does.
#[derive(Debug, Clone, Copy, PartialEq, Eq, Structural)]
pub enum TrayMenuAction {
    ShowMainWindow,
    QuitApp,
    Ignore,
}

/// The action of the tray menu entry with id `id`.
pub open spec fn tray_menu_action_of(id: Seq<char>) -> TrayMenuAction {
    if id == "tray_show_main"@ {
        TrayMenuAction::ShowMainWindow
    } else if id == "tray_quit_app"@ {
        TrayMenuAction::QuitApp
    } else {
        TrayMenuAction::Ignore
    }
}

/// A pointer event on the tray icon.
#[derive(Debug, Clone, Copy, PartialEq, Eq, Structural)]
pub enum TrayPointerEvent {
    /// A click; `left_button` when the left button, `released` when the button went up.
    Click { left_button: bool, released: bool },
    /// A double click; `left_button` when with the left button.
    DoubleClick { left_button: bool },
    /// Any other event (the pointer entering, moving or leaving).
    Other,
}

/// The tray icon shows the main window on a left click as the button goes up,
/// and on a left double click.
pub open spec fn tray_event_shows(e: TrayPointerEvent) -> bool {
    match e {
        TrayPointerEvent::Click { left_button, released } => left_button && released,
        TrayPointerEvent::DoubleClick { left_button } => left_button,
        TrayPointerEvent::Other => false,
    }
}

/// Whether a pointer event on the tray icon shows the main window.
pub fn tray_event_shows_window(e: TrayPointerEvent) -> (r: bool)
    ensures
        r == tray_event_shows(e),
{
    match e {
        TrayPointerEvent::Click { left_button, released } => left_button && released,
        TrayPointerEvent::DoubleClick { left_button } => left_button,
        TrayPointerEvent::Other => false,
    }
}

/// An event of the main window.
#[derive(Debug, Clone, Copy, PartialEq, Eq, Structural)]
pub enum MainWindowEvent {
    /// The window was resized; `minimized` when it is now minimized.
    Resized { minimized: bool },
    /// The user asked to close the window.
    CloseRequested,
    /// Any other window event.
    Other,
}

/// What the manager does with a main window event.
#[derive(Debug, Clone, Copy, PartialEq, Eq, Structural)]
pub enum WindowEventAction {
    /// Hide the window to the tray.
    Hide,
    /// Keep the window from closing and hide it to the tray.
    PreventCloseAndHide,
    /// Let the event take its course.
    Proceed,
}

/// The action for a main window event, while the manager is `exiting` or not:
/// minimizing hides to the tray, and closing hides to the tray unless the
/// manager is quitting.
pub open spec fn window_event_action(e: MainWindowEvent, exiting: bool) -> WindowEventAction {
    match e {
        MainWindowEvent::Resized { minimized } => if minimized {
            WindowEventAction::Hide
        } else {
            WindowEventAction::Proceed
        },
        MainWindowEvent::CloseRequested => if exiting {
            WindowEventAction::Proceed
        } else {
            WindowEventAction::PreventCloseAndHide
        },
        MainWindowEvent::Other => WindowEventAction::Proceed,
    }
}

/// Whether the manager is quitting, after a tray menu action.
pub open spec fn exiting_after(exiting: bool, action: TrayMenuAction) -> bool {
    exiting || action == TrayMenuAction::QuitApp
}

/// The state of the manager that its window decisions depend on.
#[derive(Debug, Clone, Copy, PartialEq, Eq, Structural)]
pub struct ManagerState {
    /// The manager is quitting: closing the main window is let through.
    pub exiting: bool,
}

impl ManagerState {
    /// The state of a manager that has just started.
    pub fn new() -> (s: ManagerState)
        ensures
            !s.exiting,
    {
        ManagerState { exiting: false }
    }

    /// Handles a click on the tray menu entry `id`; quitting marks the manager as exiting.
    pub fn on_tray_menu(&mut self, id: &str) -> (a: TrayMenuAction)
        ensures
            a == tray_menu_action_of(id@),
            final(self).exiting == exiting_after(old(self).exiting, a),
    {
        let a = if same_text(id, TRAY_MENU_SHOW) {
            TrayMenuAction::ShowMainWindow
        } else if same_text(id, TRAY_MENU_QUIT) {
            TrayMenuAction::QuitApp
        } else {
            TrayMenuAction::Ignore
        };
        if a == TrayMenuAction::QuitApp {
            self.exiting = true;
        }
        a
    }

    /// Handles the front end's request to quit the manager.
    pub fn on_exit_command(&mut self)
        ensures
            final(self).exiting,
    {
        self.exiting = true;
    }

    /// Decides what to do with a main window event.
    pub fn on_main_window_event(&self, e: MainWindowEvent) -> (r: WindowEventAction)
        ensures
            r == window_event_action(e, self.exiting),
    {
        match e {
            MainWindowEvent::Resized { minimized } => if minimized {
                WindowEventAction::Hide
            } else {
                WindowEventAction::Proceed
            },
            MainWindowEvent::CloseRequested => if self.exiting {
                WindowEventAction::Proceed
            } else {
                WindowEventAction::PreventCloseAndHide
            },
            MainWindowEvent::Other => WindowEventAction::Proceed,
        }
    }
}

/// Once the tray's quit entry has been chosen, closing the main window is let
/// through; before the manager quits, every close request keeps the window and
/// hides it to the tray.
pub proof fn lemma_quit_lets_window_close(exiting: bool)
    ensures
        window_event_action(
            MainWindowEvent::CloseRequested,
            exiting_after(exiting, tray_menu_action_of("tray_quit_app"@)),
        ) == WindowEventAction::Proceed,
        !exiting ==> window_event_action(MainWindowEvent::CloseRequested, exiting)
            == WindowEventAction::PreventCloseAndHide,
{
    reveal_strlit("tray_quit_app");
    reveal_strlit("tray_show_main");
    assert("tray_quit_app"@[5] != "tray_show_main"@[5]);
}

/// A process running on the machine.
#[derive(Debug, Clone)]
pub struct ProcessEntry {
    pub process_id: u32,
    pub exe_file: String,
}

/// The code of `c` with ASCII capitals lowered.
pub open spec fn ascii_lower_code(c: char) -> u32 {
    if 'A' <= c <= 'Z' {
        (c as u32 + 32) as u32
    } else {
        c as u32
    }
}

/// `a` and `b` are equal but for the case of ASCII letters (as
/// `str::eq_ignore_ascii_case` compares).
pub open spec fn eq_ignore_ascii_case(a: Seq<char>, b: Seq<char>) -> bool {
    &&& a.len() == b.len()
    &&& forall|i: int| 0 <= i < a.len() ==> ascii_lower_code(#[trigger] a[i]) == ascii_lower_code(
        b[i],
    )
}

/// The executable file of the manager.
pub open spec fn manager_exe() -> Seq<char> {
    "codex-plus-plus-manager.exe"@
}

/// `p` is a manager other than the process `current_pid`.
pub open spec fn is_other_manager(p: ProcessEntry, current_pid: u32) -> bool {
    p.process_id != current_pid && eq_ignore_ascii_case(p.exe_file@, manager_exe())
}

fn ascii_lower(c: char) -> (r: u32)
    ensures
        r == ascii_lower_code(c),
{
    if 'A' <= c && c <= 'Z' {
        c as u32 + 32
    } else {
        c as u32
    }
}

/// Compares two strings ignoring the case of ASCII letters.
pub fn eq_ignore_ascii_case_text(a: &str, b: &str) -> (r: bool)
    ensures
        r == eq_ignore_ascii_case(a@, b@),
{
    let av = chars_of(a);
    let bv = chars_of(b);
    if av.len() != bv.len() {
        return false;
    }
    let mut i: usize = 0;
    while i < av.len()
        invariant
            av@ == a@,
            bv@ == b@,
            av.len() == bv.len(),
            i <= av.len(),
            forall|j: int| 0 <= j < i ==> ascii_lower_code(#[trigger] a@[j]) == ascii_lower_code(
                b@[j],
            ),
        decreases av.len() - i,
    {
        if ascii_lower(av[i]) != ascii_lower(bv[i]) {
            return false;
        }
        i = i + 1;
    }
    true
}

/// The first process in `processes` that is another running manager.
pub fn find_other_manager(processes: &Vec<ProcessEntry>, current_pid: u32) -> (r: Option<u32>)
    ensures
        match r {
            Some(pid) => exists|i: int|
                0 <= i < processes@.len() && #[trigger] is_other_manager(processes@[i], current_pid)
                    && processes@[i].process_id == pid && forall|j: int|
                    0 <= j < i ==> !is_other_manager(#[trigger] processes@[j], current_pid),
            None => forall|i: int|
                0 <= i < processes@.len() ==> !is_other_manager(
                    #[trigger] processes@[i],
                    current_pid,
                ),
        },
{
    let mut i: usize = 0;
    while i < processes.len()
        invariant
            i <= processes@.len(),
            forall|j: int| 0 <= j < i ==> !is_other_manager(#[trigger] processes@[j], current_pid),
        decreases processes.len() - i,
    {
        let p = &processes[i];
        if p.process_id != current_pid && eq_ignore_ascii_case_text(
            p.exe_file.as_str(),
            "codex-plus-plus-manager.exe",
        ) {
            assert(is_other_manager(processes@[i as int], current_pid));
            return Some(p.process_id);
        }
        i = i + 1;
    }
    None
}

/// Why the single-instance guard of the manager could not be taken.
#[derive(Debug, Clone, Copy, PartialEq, Eq, Structural)]
pub enum GuardErrorKind {
    /// The guard port is in use.
    AddrInUse,
    /// The guard would block.
    WouldBlock,
    /// Any other failure.
    Other,
}

/// What the manager does when its single-instance guard fails.
#[derive(Debug, Clone, Copy, PartialEq, Eq, Structural)]
pub enum GuardFallback {
    /// Another manager runs: bring its window forward and stop.
    FocusRunningManager,
    /// Something else failed: hold an ephemeral loopback port as the guard and run.
    UseEphemeralPort,
}

/// The fallback for a failed guard: a busy guard means another manager runs.
pub open spec fn guard_fallback_of(kind: GuardErrorKind) -> GuardFallback {
    match kind {
        GuardErrorKind::AddrInUse | GuardErrorKind::WouldBlock => GuardFallback::FocusRunningManager,
        GuardErrorKind::Other => GuardFallback::UseEphemeralPort,
    }
}

/// Decides what to do when the single-instance guard cannot be taken.
pub fn guard_failure_plan(kind: GuardErrorKind) -> (r: GuardFallback)
    ensures
        r == guard_fallback_of(kind),
{
    match kind {
        GuardErrorKind::AddrInUse | GuardErrorKind::WouldBlock => GuardFallback::FocusRunningManager,
        GuardErrorKind::Other => GuardFallback::UseEphemeralPort,
    }
}

} // verus!
