//! The commands of the tool: their arguments, and what each of them decides
//! before and after the processes that it runs.

pub mod init;
pub mod install;
pub mod neovide;
pub mod neovim;
pub mod port;
pub mod ps;

use crate::config::Config;
use crate::text::{chars_of, string_of};
use vstd::prelude::*;

verus! {

/// The arguments of the tool.
#[derive(Debug)]
pub struct Args {
    pub subcommand: Subcommand,
    /// Workspace folder path (defaults to the current directory).
    pub workspace_folder: Option<String>,
    /// Dev container configuration name or path.
    pub config: Option<String>,
}

/// The commands of the tool.
#[derive(Debug)]
pub enum Subcommand {
    Init(InitArgs),
    InitConfig(InitConfigArgs),
    InitDocker(InitDockerArgs),
    Up(UpArgs),
    Build(BuildArgs),
    Stop(StopArgs),
    Down(DownArgs),
    Neovim(NeovimArgs),
    Neovide(NeovideArgs),
    Shell(ShellArgs),
    Bash(BashArgs),
    Exec(ExecArgs),
    Port(PortArgs),
    ClipboardServer(ClipboardServerArgs),
}

/// What every command is given besides its arguments.
#[derive(Debug, Clone)]
pub struct Metadata {
    pub config: Config,
}

/// The arguments of `init`, which writes a dev container configuration.
#[derive(Debug)]
pub struct InitArgs {}

/// The arguments of `init-config`, which writes the settings of the tool.
#[derive(Debug)]
pub struct InitConfigArgs {}

/// The arguments of `init-docker`, which adjusts the Docker client.
#[derive(Debug)]
pub struct InitDockerArgs {}

/// The arguments of `up`, which starts the container.
#[derive(Debug)]
pub struct UpArgs {
    pub rebuild: bool,
    pub build_no_cache: bool,
}

/// The arguments of `build`, which installs the editor and the tools.
#[derive(Debug)]
pub struct BuildArgs {
    pub rebuild: bool,
    pub no_cache: bool,
    pub neovim_from_source: bool,
    pub no_async: bool,
}

/// The arguments of `neovim`, which runs the editor.
#[derive(Debug)]
pub struct NeovimArgs {
    pub no_remote_ui: bool,
    pub host_port: Option<String>,
    pub container_port: Option<String>,
}

/// The arguments of `neovide`, which runs the graphical client.
#[derive(Debug)]
pub struct NeovideArgs {
    pub host_port: String,
    pub container_port: String,
}

/// The arguments of `shell`, which opens the configured shell.
#[derive(Debug)]
pub struct ShellArgs {
    pub args: Vec<String>,
}

/// The arguments of `bash`, which opens `bash`.
#[derive(Debug)]
pub struct BashArgs {
    pub args: Vec<String>,
}

/// The arguments of `down`, which stops and removes the container.
#[derive(Debug)]
pub struct DownArgs {}

/// The arguments of `exec`, which runs a command in the container.
#[derive(Debug)]
pub struct ExecArgs {
    pub args: Vec<String>,
}

/// The arguments of `port`, which manages the forwarded ports.
#[derive(Debug)]
pub struct PortArgs {
    pub subcommand: PortSubcommand,
}

/// What `port` does.
#[derive(Debug)]
pub enum PortSubcommand {
    Add(PortAddArgs),
    Rm(PortRmArgs),
    Ls(PortLsArgs),
}

/// The arguments of `port add`.
#[derive(Debug)]
pub struct PortAddArgs {
    /// `8080`, or `8080:1234` for host and container port.
    pub port_descriptor: String,
}

/// The arguments of `port rm`.
#[derive(Debug)]
pub struct PortRmArgs {
    pub port_descriptor: Option<String>,
    pub all: bool,
}

/// The arguments of `port ls`.
#[derive(Debug)]
pub struct PortLsArgs {}

/// The arguments of `stop`, which stops the container.
#[derive(Debug)]
pub struct StopArgs {}

/// The arguments of `clipboard-server`, which serves the clipboard.
#[derive(Debug)]
pub struct ClipboardServerArgs {}

/// What the tool needs on the host.
#[derive(Debug, Clone, Copy, PartialEq, Eq, Structural)]
pub enum Requirement {
    /// The dev container command-line tool.
    DevcontainerCli,
    /// The container runtime, installed and running.
    Docker,
}

/// Checks what the tool needs on the host, given whether the dev container
/// tool and the container runtime answered. The first that is missing is
/// reported.
pub fn check_requirements(cli_installed: bool, docker_running: bool) -> (missing: Result<
    (),
    Requirement,
>)
    ensures
        missing == (if !cli_installed {
            Err(Requirement::DevcontainerCli)
        } else if !docker_running {
            Err(Requirement::Docker)
        } else {
            Ok(())
        }),
{
    if !cli_installed {
        Err(Requirement::DevcontainerCli)
    } else if !docker_running {
        Err(Requirement::Docker)
    } else {
        Ok(())
    }
}

/// `name` below the directory `base`: the two joined by `separator`, unless
/// `base` is empty or ends in the separator already.
pub open spec fn joined(base: Seq<char>, name: Seq<char>, separator: char) -> Seq<char> {
    if base.len() == 0 || base.last() == separator {
        base + name
    } else {
        base.push(separator) + name
    }
}

/// Joins a file name to a directory.
pub fn join_path(base: &Vec<char>, name: &str, separator: char) -> (path: Vec<char>)
    ensures
        path@ == joined(base@, name@, separator),
{
    let mut path: Vec<char> = Vec::new();
    crate::text::extend_from_range(&mut path, base, 0, base.len());
    if base.len() > 0 && base[base.len() - 1] != separator {
        path.push(separator);
    }
    let tail = chars_of(name);
    crate::text::extend_from_range(&mut path, &tail, 0, tail.len());
    path
}

/// The path of the configuration file for the workspace `workspace` and the
/// argument `config`, with `separator` between directories: without the
/// argument, `.devcontainer/devcontainer.json` in the workspace; an argument
/// that holds a slash or the separator is itself the path; any other names
/// the directory below `.devcontainer` that holds `devcontainer.json`.
pub open spec fn config_path_of(workspace: Seq<char>, config: Option<Seq<char>>, separator: char)
    -> Seq<char> {
    let base = joined(workspace, ".devcontainer"@, separator);
    match config {
        None => joined(base, "devcontainer.json"@, separator),
        Some(name) => if name.contains('/') || name.contains(separator) {
            name
        } else {
            joined(joined(base, name, separator), "devcontainer.json"@, separator)
        },
    }
}

/// Whether `c` occurs in `text`.
fn has_char(text: &Vec<char>, c: char) -> (found: bool)
    ensures
        found == text@.contains(c),
{
    let mut i: usize = 0;
    while i < text.len()
        invariant
            i <= text.len(),
            forall|j: int| 0 <= j < i ==> text@[j] != c,
        decreases text.len() - i,
    {
        if text[i] == c {
            return true;
        }
        i += 1;
    }
    false
}

impl Args {
    /// The workspace folder as given, or `.` for the current directory. The
    /// caller makes the path absolute.
    pub fn resolve_workspace_folder(&self) -> (folder: String)
        ensures
            folder@ == (match self.workspace_folder {
                Some(given) => given@,
                None => "."@,
            }),
    {
        match &self.workspace_folder {
            Some(given) => given.clone(),
            None => ".".to_owned(),
        }
    }

    /// The path of the dev container configuration file, given the resolved
    /// workspace folder and the separator of path components. The caller
    /// makes the path absolute.
    pub fn resolve_config_path(&self, workspace_folder: &str, separator: char) -> (path: String)
        ensures
            path@ == config_path_of(
                workspace_folder@,
                match self.config {
                    Some(name) => Some(name@),
                    None => None,
                },
                separator,
            ),
    {
        let workspace = chars_of(workspace_folder);
        let base = join_path(&workspace, ".devcontainer", separator);
        match &self.config {
            None => string_of(&join_path(&base, "devcontainer.json", separator)),
            Some(name) => {
                let text = chars_of(name.as_str());
                if has_char(&text, '/') || has_char(&text, separator) {
                    name.clone()
                } else {
                    let dir = join_path(&base, name.as_str(), separator);
                    string_of(&join_path(&dir, "devcontainer.json", separator))
                }
            },
        }
    }
}

} // verus!
