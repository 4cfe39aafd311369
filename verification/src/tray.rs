//! The tray icon and its menu.

use vstd::prelude::*;
use crate::text::same_text;

verus! {

/// Id of the tray icon.
pub const TRAY_ID: &'static str = "main";

/// Id of the tray menu's "Show" item.
pub const SHOW_ID: &'static str = "show";

/// Id of the tray menu's "Quit" item.
pub const QUIT_ID: &'static str = "quit";

/// Label of the "Show" item.
pub const SHOW_LABEL: &'static str = "Show";

/// Label of the "Quit" item.
pub const QUIT_LABEL: &'static str = "Quit";

/// What a tray menu item asks for.
#[derive(Clone, Copy, Debug, PartialEq, Eq, Structural)]
pub enum TrayCommand {
    /// Show and focus the main window.
    Show,
    /// Exit the application.
    Quit,
    /// Not an item of the tray menu: nothing to do.
    Unknown,
}

/// The command of a tray menu item id.
pub open spec fn tray_command_of(id: Seq<char>) -> TrayCommand {
    if id == SHOW_ID@ {
        TrayCommand::Show
    } else if id == QUIT_ID@ {
        TrayCommand::Quit
    } else {
        TrayCommand::Unknown
    }
}

/// The command of a tray menu item id.
pub fn tray_command(id: &str) -> (command: TrayCommand)
    ensures
        command == tray_command_of(id@),
        command == TrayCommand::Show <==> id@ == "show"@,
        command == TrayCommand::Quit <==> id@ == "quit"@,
{
    proof {
        tray_commands_come_only_from_their_ids(id@);
    }
    if same_text(id, SHOW_ID) {
        TrayCommand::Show
    } else if same_text(id, QUIT_ID) {
        TrayCommand::Quit
    } else {
        TrayCommand::Unknown
    }
}


/// Only the "show" item shows the window and only the "quit" item exits:
/// every other id, such as those of the application menu, does nothing.
pub proof fn tray_commands_come_only_from_their_ids(id: Seq<char>)
    ensures
        tray_command_of(id) == TrayCommand::Show <==> id == "show"@,
        tray_command_of(id) == TrayCommand::Quit <==> id == "quit"@,
        tray_command_of(id) == TrayCommand::Unknown <==> id != "show"@ && id != "quit"@,
{
    reveal_strlit("show");
    reveal_strlit("quit");
    assert("show"@[0] != "quit"@[0]);
}

} // verus!
