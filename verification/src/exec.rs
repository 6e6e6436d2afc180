//! Running commands on the host: how a process is set up before it is
//! started, and how its end is judged.

use crate::text::texts;
use vstd::prelude::*;

verus! {

/// What a command printed.
#[derive(Debug, Clone, PartialEq, Eq)]
pub struct ExecOutput {
    pub stdout: String,
    pub stderr: String,
}

/// Why a command counts as failed.
#[derive(Debug, Clone, Copy, PartialEq, Eq, Structural)]
pub enum ExecFailure {
    /// The command line is empty.
    NoCommand,
    /// The process could not be started or waited for.
    NotRun,
    /// The process ended with a status other than success.
    Unsuccessful,
}

/// Where one of the three standard streams of a process leads.
#[derive(Debug, Clone, Copy, PartialEq, Eq, Structural)]
pub enum Stream {
    /// To the stream of the tool itself.
    Inherit,
    /// Nowhere.
    Null,
    /// To a pipe that the tool holds the other end of.
    Piped,
    /// To what the caller hands in.
    Given,
}

/// A process to be started.
#[derive(Debug, Clone, PartialEq, Eq)]
pub struct Invocation {
    pub program: String,
    pub args: Vec<String>,
    pub stdin: Stream,
    pub stdout: Stream,
    pub stderr: Stream,
}

/// `invocation` starts the first word of `line` with the other words as
/// arguments and with the given streams.
pub open spec fn invokes(
    invocation: Invocation,
    line: Seq<String>,
    stdin: Stream,
    stdout: Stream,
    stderr: Stream,
) -> bool {
    &&& line.len() > 0
    &&& invocation.program@ == line[0]@
    &&& texts(invocation.args@) == texts(line).subrange(1, line.len() as int)
    &&& invocation.stdin == stdin
    &&& invocation.stdout == stdout
    &&& invocation.stderr == stderr
}

/// Splits a command line into the program and its arguments. An empty
/// command line has no program.
pub fn program_and_args(args: &Vec<String>) -> (parts: Result<(String, Vec<String>), ExecFailure>)
    ensures
        match parts {
            Ok((program, rest)) => args.len() > 0 && program@ == args@[0]@ && texts(rest@)
                == texts(args@).subrange(1, args.len() as int),
            Err(e) => args.len() == 0 && e == ExecFailure::NoCommand,
        },
{
    if args.len() == 0 {
        return Err(ExecFailure::NoCommand);
    }
    let mut rest: Vec<String> = Vec::new();
    let mut i: usize = 1;
    while i < args.len()
        invariant
            1 <= i <= args.len(),
            rest.len() == i - 1,
            forall|j: int| 0 <= j < rest.len() ==> (#[trigger] rest@[j])@ == args@[j + 1]@,
        decreases args.len() - i,
    {
        rest.push(args[i].clone());
        i += 1;
    }
    Ok((args[0].clone(), rest))
}

/// Sets up the process of the command line `args` with the given streams.
fn invocation(args: &Vec<String>, stdin: Stream, stdout: Stream, stderr: Stream) -> (planned: Result<
    Invocation,
    ExecFailure,
>)
    ensures
        match planned {
            Ok(i) => invokes(i, args@, stdin, stdout, stderr),
            Err(e) => args.len() == 0 && e == ExecFailure::NoCommand,
        },
{
    match program_and_args(args) {
        Ok((program, rest)) => Ok(Invocation { program, args: rest, stdin, stdout, stderr }),
        Err(e) => Err(e),
    }
}

/// A process that runs on beside the tool: it reads nothing and writes to
/// the streams of the tool.
pub fn spawn(args: &Vec<String>) -> (planned: Result<Invocation, ExecFailure>)
    ensures
        match planned {
            Ok(i) => invokes(i, args@, Stream::Null, Stream::Inherit, Stream::Inherit),
            Err(e) => args.len() == 0 && e == ExecFailure::NoCommand,
        },
{
    invocation(args, Stream::Null, Stream::Inherit, Stream::Inherit)
}

/// A process that the tool waits for: it shares the three streams of the
/// tool.
pub fn exec(args: &Vec<String>) -> (planned: Result<Invocation, ExecFailure>)
    ensures
        match planned {
            Ok(i) => invokes(i, args@, Stream::Inherit, Stream::Inherit, Stream::Inherit),
            Err(e) => args.len() == 0 && e == ExecFailure::NoCommand,
        },
{
    invocation(args, Stream::Inherit, Stream::Inherit, Stream::Inherit)
}

/// A process that the tool waits for and that reads what the caller hands
/// in.
pub fn with_stdin(args: &Vec<String>) -> (planned: Result<Invocation, ExecFailure>)
    ensures
        match planned {
            Ok(i) => invokes(i, args@, Stream::Given, Stream::Inherit, Stream::Inherit),
            Err(e) => args.len() == 0 && e == ExecFailure::NoCommand,
        },
{
    invocation(args, Stream::Given, Stream::Inherit, Stream::Inherit)
}

/// A process that the tool waits for and that reads bytes which the tool
/// writes to it.
pub fn with_bytes_stdin(args: &Vec<String>) -> (planned: Result<Invocation, ExecFailure>)
    ensures
        match planned {
            Ok(i) => invokes(i, args@, Stream::Piped, Stream::Inherit, Stream::Inherit),
            Err(e) => args.len() == 0 && e == ExecFailure::NoCommand,
        },
{
    invocation(args, Stream::Piped, Stream::Inherit, Stream::Inherit)
}

/// A process whose output the tool collects: it reads nothing and writes to
/// pipes.
pub fn capturing_stdout(args: &Vec<String>) -> (planned: Result<Invocation, ExecFailure>)
    ensures
        match planned {
            Ok(i) => invokes(i, args@, Stream::Null, Stream::Piped, Stream::Piped),
            Err(e) => args.len() == 0 && e == ExecFailure::NoCommand,
        },
{
    invocation(args, Stream::Null, Stream::Piped, Stream::Piped)
}

/// A process whose output and errors the tool collects. An empty command
/// line is answered with the error that says so.
pub fn capturing(args: &Vec<String>) -> (planned: Result<Invocation, ExecOutput>)
    ensures
        match planned {
            Ok(i) => invokes(i, args@, Stream::Null, Stream::Piped, Stream::Piped),
            Err(output) => args.len() == 0 && output.stdout@.len() == 0 && output.stderr@
                == "no command provided to exec"@,
        },
{
    match invocation(args, Stream::Null, Stream::Piped, Stream::Piped) {
        Ok(i) => Ok(i),
        Err(_) => Err(
            ExecOutput { stdout: String::new(), stderr: "no command provided to exec".to_owned() },
        ),
    }
}

/// The result of a command from the status of its process: `Some(true)` for
/// an exit with success, `Some(false)` for any other exit, `None` where the
/// process could not be started or waited for.
pub fn exit_result(status: Option<bool>) -> (result: Result<(), ExecFailure>)
    ensures
        result == (match status {
            Some(true) => Ok(()),
            Some(false) => Err(ExecFailure::Unsuccessful),
            None => Err(ExecFailure::NotRun),
        }),
{
    match status {
        Some(true) => Ok(()),
        Some(false) => Err(ExecFailure::Unsuccessful),
        None => Err(ExecFailure::NotRun),
    }
}

/// The result of a command of which the standard output was collected: what
/// it printed, if it ended with success.
pub fn captured_stdout(success: bool, stdout: String) -> (result: Result<String, ExecFailure>)
    ensures
        result == (if success {
            Ok::<String, ExecFailure>(stdout)
        } else {
            Err::<String, ExecFailure>(ExecFailure::Unsuccessful)
        }),
{
    if success {
        Ok(stdout)
    } else {
        Err(ExecFailure::Unsuccessful)
    }
}

/// The result of a command whose output and errors were collected: what it
/// printed, as the value if it ended with success and as the error if it
/// did not.
pub fn captured(success: bool, stdout: String, stderr: String) -> (result: Result<
    ExecOutput,
    ExecOutput,
>)
    ensures
        match result {
            Ok(output) => success && output.stdout == stdout && output.stderr == stderr,
            Err(output) => !success && output.stdout == stdout && output.stderr == stderr,
        },
{
    let output = ExecOutput { stdout, stderr };
    if success {
        Ok(output)
    } else {
        Err(output)
    }
}

} // verus!
