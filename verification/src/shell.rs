//! The diagnostic-shell boundary: parsing one input line into a
//! command. Lines are split into words as a Unix shell would (quote
//! removal included); the first word names the command.

use vstd::prelude::*;

verus! {

/// What shell-style word splitting makes of a line: its words after
/// quote removal, or nothing when a quote is left unmatched.
pub uninterp spec fn shell_split(line: Seq<char>) -> Option<Seq<Seq<char>>>;

/// Relies on shell_words::split: POSIX-shell word splitting with quote
/// removal; the result depends on the input characters alone, and an
/// unmatched quote is the only error.
#[verifier::external_body]
fn split_words(line: &str) -> (r: Option<Vec<String>>)
    ensures
        match r {
            Some(words) => shell_split(line@) == Some(
                words@.map_values(|w: String| w@),
            ),
            None => shell_split(line@) is None,
        },
{
    match shell_words::split(line) {
        Ok(words) => Some(words),
        Err(_) => None,
    }
}

/// A command of the diagnostic shell.
#[derive(Clone, Copy, Debug, PartialEq, Eq, Structural)]
pub enum Command {
    /// Show the command overview.
    Help,
    /// Leave the shell.
    Exit,
    /// List the network interfaces a scan could bind to.
    ListPorts,
}

/// The command a single word names, if any.
pub open spec fn spec_parse_command(w: Seq<char>) -> Option<Command> {
    if w == "exit"@ || w == "Exit"@ || w == "quit"@ || w == "Quit"@ {
        Some(Command::Exit)
    } else if w == "help"@ || w == "Help"@ {
        Some(Command::Help)
    } else if w == "ListPorts"@ || w == "list_ports"@ {
        Some(Command::ListPorts)
    } else {
        None
    }
}

/// Resolve one word to the command it names.
pub fn parse_command(word: &String) -> (r: Option<Command>)
    ensures
        r == spec_parse_command(word@),
{
    if *word == "exit".to_owned() || *word == "Exit".to_owned() || *word == "quit".to_owned()
        || *word == "Quit".to_owned() {
        Some(Command::Exit)
    } else if *word == "help".to_owned() || *word == "Help".to_owned() {
        Some(Command::Help)
    } else if *word == "ListPorts".to_owned() || *word == "list_ports".to_owned() {
        Some(Command::ListPorts)
    } else {
        None
    }
}

/// The dispatch decision for one input line.
#[derive(Clone, Copy, Debug, PartialEq, Eq, Structural)]
pub enum LineOutcome {
    /// No words on the line; nothing to do.
    Empty,
    /// The line cannot be split into words (unmatched quote).
    Invalid,
    /// The first word names no known command.
    Unknown,
    /// A recognized command to run.
    Run(Command),
}

/// The dispatch decision for a line: split it into shell words; an
/// unsplittable line is invalid, a wordless line is empty, and
/// otherwise the first word decides.
pub open spec fn spec_parse_line(line: Seq<char>) -> LineOutcome {
    match shell_split(line) {
        None => LineOutcome::Invalid,
        Some(ws) => if ws.len() == 0 {
            LineOutcome::Empty
        } else {
            match spec_parse_command(ws[0]) {
                Some(c) => LineOutcome::Run(c),
                None => LineOutcome::Unknown,
            }
        },
    }
}

/// Parse one line of shell input into its dispatch decision.
pub fn parse_line(line: &str) -> (r: LineOutcome)
    ensures
        r == spec_parse_line(line@),
{
    match split_words(line) {
        None => LineOutcome::Invalid,
        Some(words) => {
            if words.len() == 0 {
                LineOutcome::Empty
            } else {
                proof {
                    assert(words@.map_values(|w: String| w@)[0] == words@[0]@);
                }
                match parse_command(&words[0]) {
                    Some(c) => LineOutcome::Run(c),
                    None => LineOutcome::Unknown,
                }
            }
        }
    }
}

/// One network interface as the system reports it, for `list_ports`.
pub struct InterfaceInfo {
    /// Interface name.
    pub name: String,
    /// Primary address, rendered as text.
    pub address: String,
    /// Broadcast address, where the interface has one.
    pub broadcast: Option<String>,
}

} // verus!
