//! Decisions on system input: the global Print Screen hotkey, the tray menu,
//! and the texts of the save notifications.

use vstd::prelude::*;
use crate::start_menu::same_text;

verus! {

/// `HC_ACTION`: the hook message carries a keyboard event to act on.
pub const HC_ACTION: i32 = 0;
/// `WM_KEYDOWN`.
pub const WM_KEYDOWN: u32 = 0x0100;
/// `WM_SYSKEYDOWN`.
pub const WM_SYSKEYDOWN: u32 = 0x0104;
/// Virtual-key code of the Print Screen key.
pub const VK_SNAPSHOT: u32 = 0x2C;

/// Whether a low-level keyboard hook call reports the Print Screen key going
/// down.
pub fn is_print_screen_press(code: i32, wparam: usize, vk_code: u32) -> (r: bool)
    ensures
        r == (code == HC_ACTION && (wparam as u32 == WM_KEYDOWN || wparam as u32 == WM_SYSKEYDOWN)
            && vk_code == VK_SNAPSHOT),
{
    let message = wparam as u32;
    let key_down = message == WM_KEYDOWN || message == WM_SYSKEYDOWN;
    code == HC_ACTION && key_down && vk_code == VK_SNAPSHOT
}

/// Entries of the tray menu.
#[derive(Clone, Copy, Debug, PartialEq, Eq, Structural)]
pub enum MenuCommand {
    /// Show the main window.
    Open,
    /// Start a region capture.
    Capture,
    /// Quit the application.
    Quit,
}

/// Maps a tray menu entry's identifier to its command.
pub fn menu_command(id: &str) -> (c: Option<MenuCommand>)
    ensures
        c == if id@ == "open"@ {
            Some(MenuCommand::Open)
        } else if id@ == "capture"@ {
            Some(MenuCommand::Capture)
        } else if id@ == "quit"@ {
            Some(MenuCommand::Quit)
        } else {
            None::<MenuCommand>
        },
{
    if same_text(id, "open") {
        Some(MenuCommand::Open)
    } else if same_text(id, "capture") {
        Some(MenuCommand::Capture)
    } else if same_text(id, "quit") {
        Some(MenuCommand::Quit)
    } else {
        None
    }
}

/// The body of the clipboard notification: the saved path when the capture was
/// also kept on disk, otherwise a note that it is on the clipboard only.
pub fn clipboard_notice_body(saved_path: Option<&str>) -> (body: String)
    ensures
        body@ == match saved_path {
            Some(p) => p@,
            None => "The capture is on your clipboard."@,
        },
{
    match saved_path {
        Some(p) => p.to_owned(),
        None => "The capture is on your clipboard.".to_owned(),
    }
}

} // verus!
