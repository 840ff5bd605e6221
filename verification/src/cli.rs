//! The command-line surface: subcommand names, help text, and the
//! message for an unrecognized first argument.

use vstd::prelude::*;
use vstd::string::StringExecFns;

verus! {

/// The subcommands, plus the help option.
#[derive(Clone, Copy, PartialEq, Eq, Structural, Debug)]
pub enum Subcommand {
    /// Build or prebuild the container image or images.
    Build,
    /// Start the container or the compose stack.
    Up,
    /// Execute a command inside the container or a service.
    Exec,
    /// Stop the container or the compose stack.
    Stop,
    /// Stop and remove the container, or tear the stack down.
    Down,
    /// Print the parsed configuration.
    Read,
    /// Print the usage text.
    Help,
}

/// Which subcommand a first argument names, if any. The help option
/// is accepted in its short, long and bare spellings.
pub open spec fn subcommand_of(s: Seq<char>) -> Option<Subcommand> {
    if s == "-h"@ || s == "--help"@ || s == "help"@ {
        Some(Subcommand::Help)
    } else if s == "build"@ {
        Some(Subcommand::Build)
    } else if s == "up"@ {
        Some(Subcommand::Up)
    } else if s == "exec"@ {
        Some(Subcommand::Exec)
    } else if s == "stop"@ {
        Some(Subcommand::Stop)
    } else if s == "down"@ {
        Some(Subcommand::Down)
    } else if s == "read"@ {
        Some(Subcommand::Read)
    } else {
        None
    }
}

/// Parses the first argument into a subcommand, or nothing when it is
/// unrecognized.
pub fn parse_subcommand(s: &String) -> (r: Option<Subcommand>)
    ensures
        r == subcommand_of(s@),
{
    proof {
        reveal_strlit("-h");
        reveal_strlit("--help");
        reveal_strlit("help");
        reveal_strlit("build");
        reveal_strlit("up");
        reveal_strlit("exec");
        reveal_strlit("stop");
        reveal_strlit("down");
        reveal_strlit("read");
    }
    if s.eq(&String::from_str("-h")) || s.eq(&String::from_str("--help")) || s.eq(
        &String::from_str("help"),
    ) {
        Some(Subcommand::Help)
    } else if s.eq(&String::from_str("build")) {
        Some(Subcommand::Build)
    } else if s.eq(&String::from_str("up")) {
        Some(Subcommand::Up)
    } else if s.eq(&String::from_str("exec")) {
        Some(Subcommand::Exec)
    } else if s.eq(&String::from_str("stop")) {
        Some(Subcommand::Stop)
    } else if s.eq(&String::from_str("down")) {
        Some(Subcommand::Down)
    } else if s.eq(&String::from_str("read")) {
        Some(Subcommand::Read)
    } else {
        None
    }
}

/// The usage text, as printed by the help option and by an invocation
/// without arguments.
pub open spec fn help_text_view() -> Seq<char> {
    "Usage: devcontainer [COMMAND] [OPTIONS]\n\nCommands:\n    build        Build or prebuild devcontainer image(s)\n    up           Start devcontainer(s)\n    exec         Execute a command in a devcontainer\n    stop         Stop devcontainer(s)\n    down         Stop and remove devcontainer(s)\n    read         Print devcontainer config\n\nOptions:\n    -h, --help   Print this help message"@
}

/// Returns the usage text.
pub fn help_text() -> (r: &'static str)
    ensures
        r@ == help_text_view(),
{
    "Usage: devcontainer [COMMAND] [OPTIONS]\n\nCommands:\n    build        Build or prebuild devcontainer image(s)\n    up           Start devcontainer(s)\n    exec         Execute a command in a devcontainer\n    stop         Stop devcontainer(s)\n    down         Stop and remove devcontainer(s)\n    read         Print devcontainer config\n\nOptions:\n    -h, --help   Print this help message"
}

/// The error line for an unrecognized first argument.
pub open spec fn unknown_command_view(s: Seq<char>) -> Seq<char> {
    "unknown command or option: "@ + s
}

/// Returns the error line for an unrecognized first argument.
pub fn unknown_command_message(s: &String) -> (r: String)
    ensures
        r@ == unknown_command_view(s@),
{
    let mut r = String::from_str("unknown command or option: ");
    r.append(s.as_str());
    r
}

} // verus!
