//! Command lines for projects that are built with `docker compose`.

use crate::text::texts;
use vstd::prelude::*;

verus! {

/// The compose files of a project.
#[derive(Debug, Clone, PartialEq, Eq)]
pub struct ComposeArgs {
    pub compose_files: Vec<String>,
}

/// `-f <file>` for each of the first `n` compose files.
pub open spec fn file_flags(files: Seq<String>, n: int) -> Seq<Seq<char>>
    decreases n,
{
    if n <= 0 {
        Seq::empty()
    } else {
        file_flags(files, n - 1).push("-f"@).push(files[n - 1]@)
    }
}

/// The start of every compose command line of the project.
pub open spec fn compose_command(files: Seq<String>) -> Seq<Seq<char>> {
    seq!["docker"@, "compose"@] + file_flags(files, files.len() as int)
}

/// Builds the start of a compose command line: `docker compose` and the
/// compose files of the project.
pub fn create_compose_command(args: &ComposeArgs) -> (command: Vec<String>)
    ensures
        texts(command@) == compose_command(args.compose_files@),
{
    let mut command: Vec<String> = Vec::new();
    command.push("docker".to_owned());
    command.push("compose".to_owned());
    let ghost head = seq!["docker"@, "compose"@];
    let mut i: usize = 0;
    while i < args.compose_files.len()
        invariant
            i <= args.compose_files.len(),
            head == seq!["docker"@, "compose"@],
            texts(command@) == head + file_flags(args.compose_files@, i as int),
        decreases args.compose_files.len() - i,
    {
        let ghost before = texts(command@);
        command.push("-f".to_owned());
        command.push(args.compose_files[i].clone());
        assert(texts(command@) =~= before.push("-f"@).push(args.compose_files@[i as int]@));
        i += 1;
    }
    command
}

/// A compose command line of the project that ends in `action`.
fn compose_action(args: &ComposeArgs, action: &str) -> (command: Vec<String>)
    ensures
        texts(command@) == compose_command(args.compose_files@).push(action@),
{
    let mut command = create_compose_command(args);
    command.push(action.to_owned());
    command
}

/// The command line that shows whether `docker compose` can be run at all.
pub fn check_prerequirements(args: &ComposeArgs) -> (command: Vec<String>)
    ensures
        texts(command@) == compose_command(args.compose_files@).push("version"@),
{
    compose_action(args, "version")
}

/// The command line that builds the images of the project.
pub fn compose(args: &ComposeArgs) -> (command: Vec<String>)
    ensures
        texts(command@) == compose_command(args.compose_files@).push("build"@),
{
    compose_action(args, "build")
}

/// The command lines that build the project, in the order in which they
/// are run.
pub fn build(args: &ComposeArgs) -> (commands: Vec<Vec<String>>)
    ensures
        commands.len() == 1,
        texts(commands@[0]@) == compose_command(args.compose_files@).push("build"@),
{
    let mut commands: Vec<Vec<String>> = Vec::new();
    commands.push(compose(args));
    commands
}

} // verus!
