//! The progress messages of the tool: what a message is made of.

use crate::text::{chars_of, extend_from_range, string_of};
use vstd::prelude::*;

verus! {

/// The width of the column that holds the kind of a message.
pub const KIND_WIDTH: usize = 10;

/// The three parts of a message, in the order in which they are printed:
/// the kind, to be printed in green; the note, if there is one, to be
/// printed in grey; and the text.
#[derive(Debug, Clone, PartialEq, Eq)]
pub struct LogLine {
    pub kind: String,
    pub note: Option<String>,
    pub message: String,
}

/// `text` after as many spaces as it takes to make it `width` characters
/// long; a longer text is left as it is.
pub open spec fn right_aligned(text: Seq<char>, width: nat) -> Seq<char> {
    if text.len() >= width {
        text
    } else {
        Seq::new((width - text.len()) as nat, |i: int| ' ') + text
    }
}

/// Puts a message together: the kind, aligned to the right of its column;
/// the note in parentheses after a space; the text after a space.
pub fn log(kind: &str, note: Option<&str>, msg: &str) -> (line: LogLine)
    ensures
        line.kind@ == right_aligned(kind@, KIND_WIDTH as nat),
        match note {
            Some(text) => line.note is Some && line.note->0@ == " ("@ + text@ + ")"@,
            None => line.note is None,
        },
        line.message@ == " "@ + msg@,
{
    let word = chars_of(kind);
    let mut aligned: Vec<char> = Vec::new();
    let mut n: usize = word.len();
    while n < KIND_WIDTH
        invariant
            word.len() <= n,
            word.len() < KIND_WIDTH ==> n <= KIND_WIDTH,
            word.len() >= KIND_WIDTH ==> n == word.len(),
            aligned@ == Seq::new((n - word.len()) as nat, |i: int| ' '),
        decreases KIND_WIDTH - n,
    {
        aligned.push(' ');
        n += 1;
    }
    extend_from_range(&mut aligned, &word, 0, word.len());
    let note = match note {
        Some(text) => {
            let mut shown = " (".to_owned();
            shown.append(text);
            shown.append(")");
            Some(shown)
        },
        None => None,
    };
    let mut message = " ".to_owned();
    message.append(msg);
    LogLine { kind: string_of(&aligned), note, message }
}

} // verus!
