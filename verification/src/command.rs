//! What the player typed, and what it asks for.

use vstd::prelude::*;
use crate::text::same_text;

verus! {

/// What one line of input asks for.
#[derive(Clone, Copy, Debug, PartialEq, Eq, Structural)]
pub enum Command {
    /// Feed the pet.
    Feed,
    /// Play with the pet.
    Play,
    /// Leave the game.
    Quit,
    /// An empty line: let the turn pass.
    Wait,
    /// Anything else.
    Invalid,
}

/// What `str::trim` makes of a text: the text without the white space at
/// its two ends, by Unicode's notion of white space.
pub uninterp spec fn trimmed(text: Seq<char>) -> Seq<char>;

/// What `str::to_lowercase` makes of a text: its lowercase equivalent by
/// Unicode's mapping.
pub uninterp spec fn lowercased(text: Seq<char>) -> Seq<char>;

/// `str::trim` of the standard library. Trusted: its result is a function
/// of the characters of its argument; that function is named `trimmed`,
/// and nothing more is claimed of it.
pub assume_specification[ str::trim ](text: &str) -> (rest: &str)
    ensures
        rest@ == trimmed(text@),
;

/// `str::to_lowercase` of the standard library. Trusted: its result is a
/// function of the characters of its argument; that function is named
/// `lowercased`, and nothing more is claimed of it.
pub assume_specification[ str::to_lowercase ](text: &str) -> (lower: String)
    ensures
        lower@ == lowercased(text@),
;

/// A line of input without the white space around it, in lowercase.
pub open spec fn normal_form(line: Seq<char>) -> Seq<char> {
    lowercased(trimmed(line))
}

/// The command that a word stands for. Each command has a digit, a full
/// word and a letter.
pub open spec fn command_of(word: Seq<char>) -> Command {
    if word == "1"@ || word == "alimentar"@ || word == "a"@ {
        Command::Feed
    } else if word == "2"@ || word == "jugar"@ || word == "j"@ {
        Command::Play
    } else if word == "3"@ || word == "salir"@ || word == "q"@ {
        Command::Quit
    } else {
        Command::Invalid
    }
}

/// The command that a line of input stands for: an empty line (after
/// trimming) lets the turn pass, any other line is read as a word.
pub open spec fn decoded(line: Seq<char>) -> Command {
    if normal_form(line).len() == 0 {
        Command::Wait
    } else {
        command_of(trimmed(normal_form(line)))
    }
}

/// Brings a line of input into its normal form: trimmed and in lowercase.
/// Gives `None` when nothing is left of the line.
pub fn normalize(line: &str) -> (word: Option<String>)
    ensures
        match word {
            Some(w) => w@ == normal_form(line@) && w@.len() > 0,
            None => normal_form(line@).len() == 0,
        },
{
    let lower = line.trim().to_lowercase();
    if lower.as_str().is_empty() {
        None
    } else {
        Some(lower)
    }
}

impl Command {
    /// Reads a word as a command. The word is taken as it is: `"Q"` and
    /// `" q"` are invalid, `"q"` quits. No word means `Wait`.
    pub fn from_word(word: &str) -> (command: Command)
        ensures
            command == command_of(word@),
            command != Command::Wait,
    {
        if same_text(word, "1") || same_text(word, "alimentar") || same_text(word, "a") {
            Command::Feed
        } else if same_text(word, "2") || same_text(word, "jugar") || same_text(word, "j") {
            Command::Play
        } else if same_text(word, "3") || same_text(word, "salir") || same_text(word, "q") {
            Command::Quit
        } else {
            Command::Invalid
        }
    }

    /// Reads a line of input as a command: `Wait` when its normal form
    /// is empty, else what the normal form, trimmed once more, stands for
    /// as a word.
    pub fn decode(line: &str) -> (command: Command)
        ensures
            command == decoded(line@),
            command == Command::Wait <==> normal_form(line@).len() == 0,
    {
        match normalize(line) {
            None => Command::Wait,
            Some(word) => Command::from_word(word.as_str().trim()),
        }
    }
}

} // verus!
