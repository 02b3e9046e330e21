//! Decision logic and credential commands of a tray-resident desktop shell.
//!
//! `shell` holds the window lifecycle policy and the tray controller as a
//! state machine; `credentials` maps a (service, user) pair onto the
//! platform secret store.

mod credentials;
mod shell;

pub use credentials::{
    classify_fault, delete_token, error_of, get_token, save_token, settle, settled,
    CredentialError, StoreFault, NOT_FOUND_MESSAGE,
};

pub use shell::{
    close_request_hides, menu_event, menu_event_of, quit_exits, show_after_hide, transition,
    tray_menu, MenuEntry, ShellAction, ShellEvent, TrayShell, WindowState, MAIN_WINDOW, MENU_QUIT,
    MENU_SHOW, TRAY_ID,
};
