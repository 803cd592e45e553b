//! The commands of the pager's command line.

use vstd::prelude::*;
use crate::text::{split_words, string_of, to_chars, words};

verus! {

/// A command of the pager.
#[derive(Debug, PartialEq)]
pub enum Command {
    /// Show the date of the entries on display.
    ShowDate,
    /// Show the entries of the date that the text names.
    SetDate(String),
    /// Do nothing.
    NoOp,
}

/// The word that begins the commands about the date.
pub open spec fn date_word() -> Seq<char> {
    seq!['d', 'a', 't', 'e']
}

/// Whether `command` is what the words of a command line mean: `date` alone
/// shows the date, `date` with one more word sets it, and everything else
/// does nothing.
pub open spec fn is_command_of(command: Command, words: Seq<Seq<char>>) -> bool {
    match command {
        Command::ShowDate => words.len() == 1 && words[0] == date_word(),
        Command::SetDate(date) => words.len() == 2 && words[0] == date_word() && date@ == words[1],
        Command::NoOp => !(1 <= words.len() <= 2 && words[0] == date_word()),
    }
}

impl Command {
    /// Reads a command line. Every text is accepted.
    pub fn from_str(s: &str) -> (r: Result<Command, ()>)
        ensures
            r is Ok,
            is_command_of(r->Ok_0, split_words(s@)),
    {
        let v = to_chars(s);
        let parts = words(&v);
        if parts.len() == 0 {
            return Ok(Command::NoOp);
        }
        let mut date: Vec<char> = Vec::new();
        date.push('d');
        date.push('a');
        date.push('t');
        date.push('e');
        assert(date@ =~= date_word());
        Ok(
            if crate::text::same_chars(&parts[0], &date) {
                if parts.len() == 1 {
                    Command::ShowDate
                } else if parts.len() == 2 {
                    Command::SetDate(string_of(&parts[1]))
                } else {
                    Command::NoOp
                }
            } else {
                Command::NoOp
            },
        )
    }
}

} // verus!
