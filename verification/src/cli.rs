//! The decisions of the command-line interface and of the launcher.

use vstd::prelude::*;
use crate::text::{same_text, trim, trimmed};

verus! {

/// The first port the command-line scan probes.
pub const CLI_FIRST_PORT: u16 = 1;

/// The last port the command-line scan probes.
pub const CLI_LAST_PORT: u16 = 1024;

/// How long the command-line scan waits for each connection, in milliseconds.
pub const CLI_TIMEOUT_MS: u64 = 1000;

/// An entry of the main menu.
#[derive(Clone, Copy, Debug, PartialEq, Eq, Structural)]
pub enum MenuChoice {
    /// Scan the ports of a host.
    ScanPorts,
    /// Show the guide of common ports.
    PortGuide,
    /// Leave the menu for the graphical interface.
    OpenGui,
    /// Quit the program.
    Quit,
    /// Anything else.
    Invalid,
}

/// The menu entry that the line `input` selects.
pub open spec fn menu_choice_of(input: Seq<char>) -> MenuChoice {
    let t = trimmed(input);
    if t == "1"@ {
        MenuChoice::ScanPorts
    } else if t == "2"@ {
        MenuChoice::PortGuide
    } else if t == "3"@ {
        MenuChoice::OpenGui
    } else if t == "0"@ {
        MenuChoice::Quit
    } else {
        MenuChoice::Invalid
    }
}

/// The menu entry that the line `input` selects, surrounding whitespace
/// aside.
pub fn menu_choice(input: &str) -> (choice: MenuChoice)
    ensures
        choice == menu_choice_of(input@),
{
    let t = trim(input);
    if same_text(t.as_str(), "1") {
        MenuChoice::ScanPorts
    } else if same_text(t.as_str(), "2") {
        MenuChoice::PortGuide
    } else if same_text(t.as_str(), "3") {
        MenuChoice::OpenGui
    } else if same_text(t.as_str(), "0") {
        MenuChoice::Quit
    } else {
        MenuChoice::Invalid
    }
}

/// Which interface the program starts.
#[derive(Clone, Copy, Debug, PartialEq, Eq, Structural)]
pub enum LaunchMode {
    /// The command-line menu.
    Cli,
    /// The graphical interface.
    Gui,
}

/// The interface chosen by the command-line arguments `args` and the value
/// `env_mode` of the `PORTHUNTER_MODE` variable: the command line when an
/// argument is `--cli` or the variable is `cli`, the graphical one otherwise.
pub open spec fn launch_mode_of(args: Seq<Seq<char>>, env_mode: Option<Seq<char>>) -> LaunchMode {
    if args.contains("--cli"@) || env_mode == Some("cli"@) {
        LaunchMode::Cli
    } else {
        LaunchMode::Gui
    }
}

/// The characters of an optional text.
pub open spec fn text_option_view(t: Option<&str>) -> Option<Seq<char>> {
    match t {
        Some(s) => Some(s@),
        None => None,
    }
}

/// The interface to start.
pub fn launch_mode(args: &Vec<String>, env_mode: Option<&str>) -> (mode: LaunchMode)
    ensures
        mode == launch_mode_of(args@.map_values(|a: String| a@), text_option_view(env_mode)),
{
    let ghost views = args@.map_values(|a: String| a@);
    let n = args.len();
    for i in 0..n
        invariant
            n == args@.len(),
            views == args@.map_values(|a: String| a@),
            forall|j: int| 0 <= j < i ==> views[j] != "--cli"@,
    {
        if same_text(args[i].as_str(), "--cli") {
            assert(views[i as int] == "--cli"@);
            return LaunchMode::Cli;
        }
    }
    assert(!views.contains("--cli"@));
    match env_mode {
        Some(m) => {
            if same_text(m, "cli") {
                LaunchMode::Cli
            } else {
                LaunchMode::Gui
            }
        },
        None => LaunchMode::Gui,
    }
}

} // verus!
