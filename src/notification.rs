use vstd::prelude::*;

verus! {

pub const WM_CREATE: u32 = 1;

pub const WM_CONTEXTMENU: u32 = 123;

pub const WM_NCDESTROY: u32 = 130;

pub const WM_COMMAND: u32 = 273;

pub const WM_USER: u32 = 1024;

/// The tray icon was selected with the mouse.
pub const NIN_SELECT: u32 = WM_USER;

/// The tray icon was selected with the keyboard.
pub const NIN_KEYSELECT: u32 = NIN_SELECT | 1;

/// The message the tray icon sends to its window.
pub const NOTIFICATION_MESSAGE_ID: u32 = WM_USER + 20;

/// The identifier of the tray icon.
pub const NOTIFY_ICON_UID: u32 = 10;

/// The command of the menu's exit entry.
pub const IDM_EXIT: usize = 100;

/// The low 16 bits of a message parameter.
pub fn loword(l: usize) -> (r: usize)
    ensures
        r == l % 65536,
{
    let r = l & 0xffff;
    assert(l & 0xffff == l % 65536) by (bit_vector);
    r
}

/// What the tray window does with one message.
#[derive(Clone, Copy, Debug, PartialEq, Eq, Structural)]
pub enum TrayAction {
    /// The window was created: learn the taskbar-restart message and add
    /// the icon, quitting if that fails.
    Create,
    /// The window is going away: remove the icon and quit.
    Destroy,
    /// The icon was selected: show the menu with its exit entry.
    ShowMenu,
    /// A notification that needs nothing done.
    Ignore,
    /// The exit entry was chosen: destroy the window.
    Exit,
    /// The taskbar was restarted: add the icon again, then default handling.
    RestoreIcon,
    /// Default handling.
    Default,
}

pub open spec fn spec_tray_action(
    message: u32,
    wparam: usize,
    lparam: usize,
    taskbar_created: u32,
) -> TrayAction {
    if message == WM_CREATE {
        TrayAction::Create
    } else if message == WM_NCDESTROY {
        TrayAction::Destroy
    } else if message == NOTIFICATION_MESSAGE_ID {
        let event = lparam % 65536;
        if event == WM_CONTEXTMENU || event == NIN_SELECT || event == NIN_KEYSELECT {
            TrayAction::ShowMenu
        } else {
            TrayAction::Ignore
        }
    } else if message == WM_COMMAND {
        if lparam == 0 && wparam % 65536 == IDM_EXIT {
            TrayAction::Exit
        } else {
            TrayAction::Default
        }
    } else if message == taskbar_created {
        TrayAction::RestoreIcon
    } else {
        TrayAction::Default
    }
}

/// Decides how the tray window answers `message`; `taskbar_created` is the
/// message the shell broadcasts when the taskbar is restarted.
pub fn tray_action(message: u32, wparam: usize, lparam: usize, taskbar_created: u32) -> (r:
    TrayAction)
    ensures
        r == spec_tray_action(message, wparam, lparam, taskbar_created),
{
    assert(NIN_KEYSELECT == 1025) by (bit_vector);
    if message == WM_CREATE {
        TrayAction::Create
    } else if message == WM_NCDESTROY {
        TrayAction::Destroy
    } else if message == NOTIFICATION_MESSAGE_ID {
        let event = loword(lparam);
        if event == WM_CONTEXTMENU as usize || event == NIN_SELECT as usize || event
            == NIN_KEYSELECT as usize {
            TrayAction::ShowMenu
        } else {
            TrayAction::Ignore
        }
    } else if message == WM_COMMAND {
        if lparam == 0 && loword(wparam) == IDM_EXIT {
            TrayAction::Exit
        } else {
            TrayAction::Default
        }
    } else if message == taskbar_created {
        TrayAction::RestoreIcon
    } else {
        TrayAction::Default
    }
}

} // verus!
