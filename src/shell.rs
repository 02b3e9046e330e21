use vstd::prelude::*;

verus! {

/// Label of the window that the shell manages.
pub const MAIN_WINDOW: &'static str = "main";

/// Identifier of the tray icon.
pub const TRAY_ID: &'static str = "main-tray";

/// Identifier of the menu entry that brings the window back.
pub const MENU_SHOW: &'static str = "show";

/// Identifier of the menu entry that ends the process.
pub const MENU_QUIT: &'static str = "quit";

/// What the user can see of the main window.
#[derive(Clone, Copy, Debug, PartialEq, Eq, Structural)]
pub enum WindowState {
    /// Shown and holding input focus.
    Visible,
    /// Hidden; the tray icon stays active.
    Hidden,
}

/// An event that reaches the shell from the host runtime.
#[derive(Clone, Copy, Debug, PartialEq, Eq, Structural)]
pub enum ShellEvent {
    /// The user or the OS asked to close the main window.
    CloseRequested,
    /// The tray icon was clicked, or "show" was picked from its menu.
    ShowRequested,
    /// "quit" was picked from the tray menu.
    QuitRequested,
}

/// What the host must do in answer to an event.
#[derive(Clone, Copy, Debug, PartialEq, Eq, Structural)]
pub enum ShellAction {
    /// Hide the window and suppress the close. A failure to hide is
    /// reported and the close is suppressed all the same.
    HideAndPreventClose,
    /// Show the window and give it input focus.
    ShowAndFocus,
    /// End the process with the given exit code.
    Exit(i32),
}

/// The state of the shell: the main window and, once quit was asked for,
/// the exit code of the process.
#[derive(Clone, Copy, Debug, PartialEq, Eq, Structural)]
pub struct TrayShell {
    pub window: WindowState,
    pub exit_code: Option<i32>,
}

/// The state after `e`, and the action that goes with it.
pub open spec fn transition(s: TrayShell, e: ShellEvent) -> (TrayShell, ShellAction) {
    match e {
        ShellEvent::CloseRequested => (
            TrayShell { window: WindowState::Hidden, exit_code: s.exit_code },
            ShellAction::HideAndPreventClose,
        ),
        ShellEvent::ShowRequested => (
            TrayShell { window: WindowState::Visible, exit_code: s.exit_code },
            ShellAction::ShowAndFocus,
        ),
        ShellEvent::QuitRequested => (
            TrayShell { window: s.window, exit_code: Some(0) },
            ShellAction::Exit(0),
        ),
    }
}

impl TrayShell {
    /// A running shell whose window starts in the state the window
    /// manager gave it.
    pub fn new(window: WindowState) -> (r: TrayShell)
        ensures
            r.window == window,
            r.exit_code is None,
    {
        TrayShell { window, exit_code: None }
    }

    /// Whether the process is still meant to run.
    pub fn is_running(&self) -> (r: bool)
        ensures
            r == (self.exit_code is None),
    {
        self.exit_code.is_none()
    }

    /// Applies `e` and returns the action that the host must perform.
    pub fn step(&mut self, e: ShellEvent) -> (a: ShellAction)
        ensures
            (*final(self), a) == transition(*old(self), e),
    {
        match e {
            ShellEvent::CloseRequested => {
                self.window = WindowState::Hidden;
                ShellAction::HideAndPreventClose
            },
            ShellEvent::ShowRequested => {
                self.window = WindowState::Visible;
                ShellAction::ShowAndFocus
            },
            ShellEvent::QuitRequested => {
                self.exit_code = Some(0);
                ShellAction::Exit(0)
            },
        }
    }
}

/// The event that a tray-menu selection with identifier `id` stands for.
pub open spec fn menu_event_of(id: Seq<char>) -> Option<ShellEvent> {
    if id == MENU_SHOW@ {
        Some(ShellEvent::ShowRequested)
    } else if id == MENU_QUIT@ {
        Some(ShellEvent::QuitRequested)
    } else {
        None
    }
}

/// Maps a tray-menu selection to its event; an unknown identifier maps to
/// none and is ignored.
pub fn menu_event(id: &str) -> (r: Option<ShellEvent>)
    ensures
        r == menu_event_of(id@),
{
    let picked = id.to_owned();
    if picked == MENU_SHOW.to_owned() {
        Some(ShellEvent::ShowRequested)
    } else if picked == MENU_QUIT.to_owned() {
        Some(ShellEvent::QuitRequested)
    } else {
        None
    }
}

impl TrayShell {
    /// Handles a tray-menu selection: a known entry is applied as its
    /// event, an unknown one changes nothing and asks for no action.
    pub fn on_menu(&mut self, id: &str) -> (a: Option<ShellAction>)
        ensures
            match menu_event_of(id@) {
                Some(e) => (*final(self), a) == (transition(*old(self), e).0, Some(
                    transition(*old(self), e).1,
                )),
                None => *final(self) == *old(self) && a is None,
            },
    {
        match menu_event(id) {
            Some(e) => Some(self.step(e)),
            None => None,
        }
    }
}

/// An entry of the tray menu.
pub struct MenuEntry {
    pub id: String,
    pub label: String,
}

/// The tray menu: "show" labelled "Göster", then "quit" labelled "Çıkış".
pub fn tray_menu() -> (r: Vec<MenuEntry>)
    ensures
        r@.len() == 2,
        r@[0].id@ == MENU_SHOW@,
        r@[0].label@ == "Göster"@,
        r@[1].id@ == MENU_QUIT@,
        r@[1].label@ == "Çıkış"@,
{
    let mut r: Vec<MenuEntry> = Vec::new();
    r.push(MenuEntry { id: MENU_SHOW.to_owned(), label: "Göster".to_owned() });
    r.push(MenuEntry { id: MENU_QUIT.to_owned(), label: "Çıkış".to_owned() });
    r
}

/// A close request leaves the window hidden, asks the host to suppress the
/// close, and never ends the process.
pub proof fn close_request_hides(s: TrayShell)
    ensures
        transition(s, ShellEvent::CloseRequested).0.window == WindowState::Hidden,
        transition(s, ShellEvent::CloseRequested).0.exit_code == s.exit_code,
        transition(s, ShellEvent::CloseRequested).1 == ShellAction::HideAndPreventClose,
{
}

/// Selecting "show" in the tray menu, or clicking the tray icon, after the
/// window was hidden leaves it visible and focused, whatever the state
/// before the hide.
pub proof fn show_after_hide(s: TrayShell)
    ensures
        menu_event_of(MENU_SHOW@) == Some(ShellEvent::ShowRequested),
        ({
            let hidden = transition(s, ShellEvent::CloseRequested).0;
            &&& transition(hidden, ShellEvent::ShowRequested).0.window == WindowState::Visible
            &&& transition(hidden, ShellEvent::ShowRequested).1 == ShellAction::ShowAndFocus
        }),
{
}

/// Selecting "quit" in the tray menu ends the process with exit code 0,
/// from any state.
pub proof fn quit_exits(s: TrayShell)
    ensures
        menu_event_of(MENU_QUIT@) == Some(ShellEvent::QuitRequested),
        transition(s, ShellEvent::QuitRequested).0.exit_code == Some(0i32),
        transition(s, ShellEvent::QuitRequested).1 == ShellAction::Exit(0),
{
    reveal_strlit("quit");
    reveal_strlit("show");
    assert(MENU_QUIT@[0] != MENU_SHOW@[0]);
}

} // verus!
