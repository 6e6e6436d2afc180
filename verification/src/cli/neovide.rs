//! The `neovide` command: a graphical client on the host for a server of
//! the editor inside the container.

use crate::text::{chars_of, contains_pattern, find, texts};
use vstd::prelude::*;

verus! {

/// Seconds that the server and the relay are given to come up.
pub const STARTUP_WAIT_SECS: u64 = 5;

/// The command line, to be run inside the container, that starts the server
/// listening on `container_port`.
pub fn server_args(container_port: &str) -> (args: Vec<String>)
    ensures
        texts(args@) == seq!["nvim"@, "--headless"@, "--listen"@, "0.0.0.0:"@ + container_port@],
{
    let mut listen = "0.0.0.0:".to_owned();
    listen.append(container_port);
    let mut args: Vec<String> = Vec::new();
    args.push("nvim".to_owned());
    args.push("--headless".to_owned());
    args.push("--listen".to_owned());
    args.push(listen);
    args
}

/// Whether the host is a Linux that runs under Windows: its kernel release,
/// where that could be read, holds `microsoft`.
pub fn is_wsl(kernel_release: &Option<String>) -> (wsl: bool)
    ensures
        wsl == (match kernel_release {
            Some(release) => contains_pattern(release@, "microsoft"@),
            None => false,
        }),
{
    match kernel_release {
        Some(release) => find(&chars_of(release.as_str()), &chars_of("microsoft"), 0).is_some(),
        None => false,
    }
}

/// The command line of the client for the server at `server`: the Windows
/// program on Windows and under it, and else the program of the host, which
/// is told to stay in the foreground.
pub open spec fn client_command(windows: bool, wsl: bool, server: Seq<char>) -> Seq<Seq<char>> {
    if windows || wsl {
        seq!["neovide.exe"@, "--server"@, server]
    } else {
        seq!["neovide"@, "--no-fork"@, "--server"@, server]
    }
}

/// Builds the command line of the client.
pub fn client_args(windows: bool, wsl: bool, server: &str) -> (args: Vec<String>)
    ensures
        texts(args@) == client_command(windows, wsl, server@),
{
    let mut args: Vec<String> = Vec::new();
    if windows || wsl {
        args.push("neovide.exe".to_owned());
    } else {
        args.push("neovide".to_owned());
        args.push("--no-fork".to_owned());
    }
    args.push("--server".to_owned());
    args.push(server.to_owned());
    args
}

} // verus!
