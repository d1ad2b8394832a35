//! The tray menu: its item identifiers and what each one asks for.

use vstd::prelude::*;
use vstd::string::*;
use crate::display::TrayOption;

verus! {

/// What a tray menu item asks for.
#[derive(Clone, Copy, Debug, PartialEq, Eq)]
pub enum MenuCommand {
    /// Toggle the mirror on or off.
    Toggle,
    /// Invert a check item.
    Flip(TrayOption),
    /// Open the settings window.
    Settings,
    /// Leave the program.
    Quit,
}

pub open spec fn spec_menu_command(id: Seq<char>) -> Option<MenuCommand> {
    if id == "toggle"@ {
        Some(MenuCommand::Toggle)
    } else if id == "mirrored"@ {
        Some(MenuCommand::Flip(TrayOption::Mirrored))
    } else if id == "grayscale"@ {
        Some(MenuCommand::Flip(TrayOption::Grayscale))
    } else if id == "move"@ {
        Some(MenuCommand::Flip(TrayOption::MoveEnabled))
    } else if id == "toggle-mode"@ {
        Some(MenuCommand::Flip(TrayOption::ToggleMode))
    } else if id == "settings"@ {
        Some(MenuCommand::Settings)
    } else if id == "quit"@ {
        Some(MenuCommand::Quit)
    } else {
        None
    }
}

/// Whether two strings hold the same characters.
pub fn same_text(a: &str, b: &str) -> (r: bool)
    ensures
        r == (a@ == b@),
{
    let n = a.unicode_len();
    if n != b.unicode_len() {
        return false;
    }
    let mut i: usize = 0;
    while i < n
        invariant
            n == a@.len(),
            n == b@.len(),
            i <= n,
            forall|j: int| 0 <= j < i ==> a@[j] == b@[j],
        decreases n - i,
    {
        if a.get_char(i) != b.get_char(i) {
            return false;
        }
        i = i + 1;
    }
    assert(a@ =~= b@);
    true
}

/// The command of the tray menu item with identifier `id`; `None` for an
/// identifier that the menu does not have.
pub fn parse_menu_id(id: &str) -> (cmd: Option<MenuCommand>)
    ensures
        cmd == spec_menu_command(id@),
{
    if same_text(id, "toggle") {
        Some(MenuCommand::Toggle)
    } else if same_text(id, "mirrored") {
        Some(MenuCommand::Flip(TrayOption::Mirrored))
    } else if same_text(id, "grayscale") {
        Some(MenuCommand::Flip(TrayOption::Grayscale))
    } else if same_text(id, "move") {
        Some(MenuCommand::Flip(TrayOption::MoveEnabled))
    } else if same_text(id, "toggle-mode") {
        Some(MenuCommand::Flip(TrayOption::ToggleMode))
    } else if same_text(id, "settings") {
        Some(MenuCommand::Settings)
    } else if same_text(id, "quit") {
        Some(MenuCommand::Quit)
    } else {
        None
    }
}

/// The tray's seven item identifiers and their commands; every other
/// identifier is ignored.
pub proof fn lemma_menu_table(id: Seq<char>)
    ensures
        spec_menu_command("toggle"@) == Some(MenuCommand::Toggle),
        spec_menu_command("mirrored"@) == Some(MenuCommand::Flip(TrayOption::Mirrored)),
        spec_menu_command("grayscale"@) == Some(MenuCommand::Flip(TrayOption::Grayscale)),
        spec_menu_command("move"@) == Some(MenuCommand::Flip(TrayOption::MoveEnabled)),
        spec_menu_command("toggle-mode"@) == Some(MenuCommand::Flip(TrayOption::ToggleMode)),
        spec_menu_command("settings"@) == Some(MenuCommand::Settings),
        spec_menu_command("quit"@) == Some(MenuCommand::Quit),
        id != "toggle"@ && id != "mirrored"@ && id != "grayscale"@ && id != "move"@ && id
            != "toggle-mode"@ && id != "settings"@ && id != "quit"@ ==> spec_menu_command(id) is None,
{
    reveal_strlit("toggle");
    reveal_strlit("mirrored");
    reveal_strlit("grayscale");
    reveal_strlit("move");
    reveal_strlit("toggle-mode");
    reveal_strlit("settings");
    reveal_strlit("quit");
    assert("mirrored"@[0] != "toggle"@[0]);
    assert("grayscale"@[0] != "toggle"@[0]);
    assert("grayscale"@[0] != "mirrored"@[0]);
    assert("move"@[0] != "toggle"@[0]);
    assert("move"@[1] != "mirrored"@[1]);
    assert("move"@.len() != "grayscale"@.len());
    assert("toggle-mode"@.len() != "toggle"@.len());
    assert("toggle-mode"@[0] != "mirrored"@[0]);
    assert("toggle-mode"@[0] != "grayscale"@[0]);
    assert("toggle-mode"@[0] != "move"@[0]);
    assert("settings"@[0] != "toggle"@[0]);
    assert("settings"@[0] != "mirrored"@[0]);
    assert("settings"@[0] != "grayscale"@[0]);
    assert("settings"@[0] != "move"@[0]);
    assert("settings"@[0] != "toggle-mode"@[0]);
    assert("quit"@[0] != "toggle"@[0]);
    assert("quit"@[0] != "mirrored"@[0]);
    assert("quit"@[0] != "grayscale"@[0]);
    assert("quit"@[0] != "move"@[0]);
    assert("quit"@[0] != "toggle-mode"@[0]);
    assert("quit"@[0] != "settings"@[0]);
}

} // verus!
