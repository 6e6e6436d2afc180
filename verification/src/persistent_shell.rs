//! The protocol of the shell that stays open inside the container: commands
//! go in on its input, and on its output every answer ends with a line that
//! holds nothing but the prompt marker of the session.

use crate::port::{
    all_digits, decimal, digits_value, is_digit, lemma_digits_value_grows, push_decimal,
};
use crate::text::{
    chars_of, find, find_from, lemma_find_from, lemma_rfind_from, rfind, rfind_last, same_text,
    slice_of, string_of, trim, trim_end_from, trim_end_space, trimmed,
};
use rand::Rng;
use vstd::prelude::*;

verus! {

/// `rand::Rng::random::<u32>` on the thread-local generator of `rand::rng`:
/// some 32-bit number. Nothing is claimed of it.
#[verifier::external_body]
fn random_nonce() -> u32 {
    rand::rng().random::<u32>()
}

/// The prompt marker that is made of the number `nonce`.
pub open spec fn marker_text(nonce: u32) -> Seq<char> {
    "__DOCKIM_READY_"@ + decimal(nonce as nat) + "__"@
}

/// Builds the prompt marker that is made of the number `nonce`.
pub fn prompt_marker(nonce: u32) -> (marker: String)
    ensures
        marker@ == marker_text(nonce),
{
    let mut text = chars_of("__DOCKIM_READY_");
    push_decimal(&mut text, nonce as u64);
    let mut marker = string_of(&text);
    marker.append("__");
    marker
}

/// A prompt marker of a number chosen at random, so that the output of a
/// command is unlikely to hold it.
pub fn new_prompt_marker() -> (marker: String)
    ensures
        exists|nonce: u32| marker@ == marker_text(nonce),
{
    let nonce = random_nonce();
    let marker = prompt_marker(nonce);
    marker
}

/// What is written to the shell to make it print the marker, on a line of
/// its own, whenever it is ready for a command.
pub fn setup_prompt(marker: &str) -> (input: String)
    ensures
        input@ == "export PS1='"@ + marker@ + "\\n'\n"@,
{
    let mut input = "export PS1='".to_owned();
    input.append(marker);
    input.append("\\n'\n");
    input
}

/// The words of the first `n` of `command`, each but the first after a
/// space.
pub open spec fn joined_words(command: Seq<String>, n: int) -> Seq<char>
    decreases n,
{
    if n <= 0 {
        Seq::empty()
    } else if n == 1 {
        command[0]@
    } else {
        joined_words(command, n - 1) + " "@ + command[n - 1]@
    }
}

/// What is written to the shell to run `command`: its words with spaces
/// between them, followed by the order to print the exit code between two
/// marks.
pub open spec fn command_input(command: Seq<String>) -> Seq<char> {
    joined_words(command, command.len() as int) + " ; echo \"__EXIT_CODE_$?__\"\n"@
}

/// Builds what is written to the shell to run `command`.
pub fn execute_command(command: &Vec<String>) -> (input: String)
    ensures
        input@ == command_input(command@),
{
    let mut input = String::new();
    let mut i: usize = 0;
    while i < command.len()
        invariant
            i <= command.len(),
            input@ == joined_words(command@, i as int),
        decreases command.len() - i,
    {
        if i > 0 {
            input.append(" ");
        }
        input.append(command[i].as_str());
        i += 1;
    }
    input.append(" ; echo \"__EXIT_CODE_$?__\"\n");
    input
}

/// Whether a line of the shell's output is the prompt: the marker and
/// nothing but white space around it.
pub fn is_prompt_line(line: &str, marker: &str) -> (prompt: bool)
    ensures
        prompt == (trimmed(line@) == marker@),
{
    let text = trim(&chars_of(line));
    same_text(&text, &chars_of(marker))
}

/// The exit code that a text stands for: decimal digits, after a plus or a
/// minus sign or none, within the range of 32 bits.
pub open spec fn exit_code_of(s: Seq<char>) -> Option<int> {
    if s.len() == 0 {
        None
    } else {
        let negative = s[0] == '-';
        let body = if s[0] == '-' || s[0] == '+' {
            s.drop_first()
        } else {
            s
        };
        if body.len() == 0 || !all_digits(body) {
            None
        } else {
            let value = if negative {
                -(digits_value(body) as int)
            } else {
                digits_value(body) as int
            };
            if i32::MIN <= value <= i32::MAX {
                Some(value)
            } else {
                None
            }
        }
    }
}

/// Reads an exit code.
pub fn parse_exit_code(s: &Vec<char>) -> (code: Option<i32>)
    ensures
        match code {
            Some(c) => exit_code_of(s@) == Some(c as int),
            None => exit_code_of(s@) is None,
        },
{
    if s.len() == 0 {
        return None;
    }
    let negative = s[0] == '-';
    let start: usize = if s[0] == '-' || s[0] == '+' {
        1
    } else {
        0
    };
    let ghost body = s@.subrange(start as int, s.len() as int);
    if start == s.len() {
        return None;
    }
    let mut value: i64 = 0;
    let mut i: usize = start;
    while i < s.len()
        invariant
            start <= i <= s.len(),
            s@.len() > 0,
            negative == (s@[0] == '-'),
            body.len() > 0,
            body == s@.subrange(start as int, s.len() as int),
            body == (if s@[0] == '-' || s@[0] == '+' {
                s@.drop_first()
            } else {
                s@
            }),
            all_digits(body.subrange(0, i - start)),
            value == digits_value(body.subrange(0, i - start)),
            0 <= value <= 2147483648,
        decreases s.len() - i,
    {
        let c = s[i];
        let ghost upto = body.subrange(0, i - start);
        let ghost next = body.subrange(0, i + 1 - start);
        if !('0' <= c && c <= '9') {
            assert(!is_digit(body[i - start]));
            return None;
        }
        assert(next.drop_last() =~= upto);
        let digit: i64 = (c as u32 - 48) as i64;
        value = value * 10 + digit;
        if value > 2147483648 {
            proof {
                if all_digits(body) {
                    lemma_digits_value_grows(body, i + 1 - start);
                }
            }
            return None;
        }
        i += 1;
    }
    assert(body.subrange(0, body.len() as int) =~= body);
    if negative {
        Some((-value) as i32)
    } else if value > 2147483647 {
        None
    } else {
        Some(value as i32)
    }
}

/// A command that ended with an exit code other than zero.
#[derive(Debug, Clone, PartialEq, Eq)]
pub struct CommandFailure {
    pub exit_code: i32,
    /// What the command printed, without white space at the end.
    pub output: String,
}

/// The result of a command, read off what the shell printed up to the
/// prompt. The exit code stands after the last `__EXIT_CODE_`, up to the
/// next `__`; what was printed before it is the output of the command,
/// without white space at its end. Where no exit code can be read, the
/// whole text is taken as the output of a command that succeeded.
pub open spec fn command_result(output: Seq<char>) -> Result<Seq<char>, (int, Seq<char>)> {
    match rfind_last(output, "__EXIT_CODE_"@) {
        None => Ok(output),
        Some(start) => match find_from(output, "__"@, start + 12) {
            None => Ok(output),
            Some(end) => match exit_code_of(output.subrange(start + 12, end)) {
                None => Ok(output),
                Some(code) => {
                    let clean = trim_end_space(output.subrange(0, start));
                    if code != 0 {
                        Err((code, clean))
                    } else {
                        Ok(clean)
                    }
                },
            },
        },
    }
}

/// Reads the result of a command off what the shell printed up to the
/// prompt.
pub fn parse_command_output(output: &str) -> (result: Result<String, CommandFailure>)
    ensures
        match result {
            Ok(text) => command_result(output@) == Ok::<Seq<char>, (int, Seq<char>)>(text@),
            Err(failure) => command_result(output@) == Err::<Seq<char>, (int, Seq<char>)>(
                (failure.exit_code as int, failure.output@),
            ),
        },
{
    let text = chars_of(output);
    let mark = chars_of("__EXIT_CODE_");
    let close = chars_of("__");
    proof {
        reveal_strlit("__EXIT_CODE_");
        reveal_strlit("__");
    }
    let start = match rfind(&text, &mark) {
        Some(start) => start,
        None => {
            return Ok(string_of(&text));
        },
    };
    let length: usize = text.len();
    proof {
        lemma_rfind_from(text@, mark@, text@.len() - mark@.len());
    }
    let end = match find(&text, &close, start + 12) {
        Some(end) => end,
        None => {
            return Ok(string_of(&text));
        },
    };
    proof {
        lemma_find_from(text@, close@, start + 12);
    }
    let digits = slice_of(&text, start + 12, end);
    match parse_exit_code(&digits) {
        None => Ok(string_of(&text)),
        Some(code) => {
            let head = slice_of(&text, 0, start);
            assert(head@.subrange(0, head@.len() as int) == head@);
            let clean = trim_end_from(&head, 0);
            if code != 0 {
                Err(CommandFailure { exit_code: code, output: string_of(&clean) })
            } else {
                Ok(string_of(&clean))
            }
        },
    }
}

/// The decimal notation of `n`, with a minus sign before it if `n` is
/// negative.
pub open spec fn signed_decimal(n: int) -> Seq<char> {
    if n < 0 {
        seq!['-'] + decimal((-n) as nat)
    } else {
        decimal(n as nat)
    }
}

/// The message that tells of a failed command.
pub open spec fn failure_text(exit_code: int, output: Seq<char>) -> Seq<char> {
    "Command failed with exit code "@ + signed_decimal(exit_code) + ": "@ + output
}

/// Builds the message that tells of a failed command.
pub fn failure_message(failure: &CommandFailure) -> (message: String)
    ensures
        message@ == failure_text(failure.exit_code as int, failure.output@),
{
    let mut text = chars_of("Command failed with exit code ");
    let code: i64 = failure.exit_code as i64;
    if code < 0 {
        text.push('-');
        push_decimal(&mut text, (-code) as u64);
    } else {
        push_decimal(&mut text, code as u64);
    }
    let mut message = string_of(&text);
    message.append(": ");
    message.append(failure.output.as_str());
    message
}

} // verus!
