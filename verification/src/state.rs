//! Process-wide settings: the shell being served and its zero-width
//! escape markers.

use vstd::prelude::*;

verus! {

/// Which shell the prompt is rendered for; fixed at process start.
/// Decides the zero-width markers wrapped around raw color bytes so the
/// shell's line-editing width calculation skips them.
#[derive(Clone, Copy, PartialEq, Eq, Structural, Debug)]
pub enum Shell {
    Plain,
    Bash,
    Zsh,
}

/// Process-wide settings fixed at startup from command-line flags.
#[derive(Clone, Copy)]
pub struct State {
    pub exit_code: u8,
    pub shell: Shell,
}

/// The marker that opens a zero-width span for the given shell.
pub open spec fn escape_start_spec(s: Shell) -> Seq<char> {
    match s {
        Shell::Plain => ""@,
        Shell::Bash => "\x01"@,
        Shell::Zsh => "%{"@,
    }
}

/// The marker that closes a zero-width span for the given shell.
pub open spec fn escape_end_spec(s: Shell) -> Seq<char> {
    match s {
        Shell::Plain => ""@,
        Shell::Bash => "\x02"@,
        Shell::Zsh => "%}"@,
    }
}

impl Shell {
    pub fn escape_start(self) -> (r: &'static str)
        ensures
            r@ == escape_start_spec(self),
    {
        match self {
            Shell::Plain => "",
            Shell::Bash => "\x01",
            Shell::Zsh => "%{",
        }
    }

    pub fn escape_end(self) -> (r: &'static str)
        ensures
            r@ == escape_end_spec(self),
    {
        match self {
            Shell::Plain => "",
            Shell::Bash => "\x02",
            Shell::Zsh => "%}",
        }
    }
}

} // verus!
