//! The user's settings.

use crate::cli::{join_path, joined};
use crate::text::{chars_of, clone_strings, string_of, texts};
use vstd::prelude::*;

verus! {

/// The settings of the tool.
#[derive(Debug, Clone, PartialEq, Eq)]
pub struct Config {
    pub shell: String,
    pub neovim_version: String,
    pub neovim_binary_repository: String,
    pub dotfiles_repository_name: String,
    pub dotfiles_install_command: String,
    pub remote: RemoteConfig,
}

/// How the client of the editor is started.
#[derive(Debug, Clone, PartialEq, Eq)]
pub struct RemoteConfig {
    pub args_windows: Vec<String>,
    pub args_unix: Vec<String>,
    pub args: Vec<String>,
    pub background: bool,
    pub use_clipboard_server: bool,
}

/// The shell that `shell` opens unless another is configured.
pub fn default_shell() -> (value: String)
    ensures
        value@ == "/usr/bin/bash"@,
{
    "/usr/bin/bash".to_owned()
}

/// The version of the editor that is installed unless another is configured.
pub fn default_neovim_version() -> (value: String)
    ensures
        value@ == "v0.11.0"@,
{
    "v0.11.0".to_owned()
}

/// Where the releases of the editor are downloaded from unless configured.
pub fn default_neovim_binary_repository() -> (value: String)
    ensures
        value@ == "https://github.com/neovim/neovim"@,
{
    "https://github.com/neovim/neovim".to_owned()
}

/// The name of the repository of the dotfiles unless configured.
pub fn default_dotfiles_repository_name() -> (value: String)
    ensures
        value@ == "dotfiles"@,
{
    "dotfiles".to_owned()
}

/// The command that installs the dotfiles unless one is configured.
pub fn default_dotfiles_install_command() -> (value: String)
    ensures
        value@ == "echo 'no dotfiles install command configured'"@,
{
    "echo 'no dotfiles install command configured'".to_owned()
}

/// The client's command line as it is unless configured: the editor as a
/// remote user interface of the server.
pub open spec fn default_client_command() -> Seq<Seq<char>> {
    seq!["nvim"@, "--server"@, crate::cli::neovim::SERVER_PLACEHOLDER@, "--remote-ui"@]
}

/// The deprecated setting of the client's command line on Unix.
pub fn default_remote_args_unix() -> (args: Vec<String>)
    ensures
        texts(args@) == default_client_command(),
{
    let mut args: Vec<String> = Vec::new();
    args.push("nvim".to_owned());
    args.push("--server".to_owned());
    args.push(crate::cli::neovim::SERVER_PLACEHOLDER.to_owned());
    args.push("--remote-ui".to_owned());
    args
}

/// The deprecated setting of the client's command line on Windows.
pub fn default_remote_args_windows() -> (args: Vec<String>)
    ensures
        texts(args@) == default_client_command(),
{
    default_remote_args_unix()
}

/// The client runs in the foreground unless configured.
pub fn default_remote_background() -> (value: bool)
    ensures
        !value,
{
    false
}

/// No clipboard server is started unless configured.
pub fn default_remote_use_clipboard_server() -> (value: bool)
    ensures
        !value,
{
    false
}

/// The client's command line unless one is configured.
pub fn default_remote_args() -> (args: Vec<String>)
    ensures
        texts(args@) == default_client_command(),
{
    default_remote_args_unix()
}

impl Default for RemoteConfig {
    fn default() -> (config: Self)
        ensures
            texts(config.args_windows@) == default_client_command(),
            texts(config.args_unix@) == default_client_command(),
            texts(config.args@) == default_client_command(),
            !config.background,
            !config.use_clipboard_server,
    {
        RemoteConfig {
            args_windows: default_remote_args_windows(),
            args_unix: default_remote_args_unix(),
            args: default_remote_args(),
            background: default_remote_background(),
            use_clipboard_server: default_remote_use_clipboard_server(),
        }
    }
}

impl Default for Config {
    fn default() -> (config: Self)
        ensures
            config.shell@ == "/usr/bin/bash"@,
            config.neovim_version@ == "v0.11.0"@,
            config.neovim_binary_repository@ == "https://github.com/neovim/neovim"@,
            config.dotfiles_repository_name@ == "dotfiles"@,
            config.dotfiles_install_command@ == "echo 'no dotfiles install command configured'"@,
            texts(config.remote.args@) == default_client_command(),
            texts(config.remote.args_unix@) == default_client_command(),
            texts(config.remote.args_windows@) == default_client_command(),
            !config.remote.background,
            !config.remote.use_clipboard_server,
    {
        Config {
            shell: default_shell(),
            neovim_version: default_neovim_version(),
            neovim_binary_repository: default_neovim_binary_repository(),
            dotfiles_repository_name: default_dotfiles_repository_name(),
            dotfiles_install_command: default_dotfiles_install_command(),
            remote: RemoteConfig::default(),
        }
    }
}

impl RemoteConfig {
    /// Whether the client's command line comes from one of the two settings
    /// that are kept for old configuration files only.
    pub open spec fn deprecated_args_in_use(&self) -> bool {
        self.args@.len() == 0 && (self.args_windows@.len() > 0 || self.args_unix@.len() > 0)
    }

    /// The command line of the client on a host that is Windows or not.
    pub open spec fn client_command(&self, windows: bool) -> Seq<Seq<char>> {
        if self.args@.len() > 0 {
            texts(self.args@)
        } else if self.args_windows@.len() > 0 || self.args_unix@.len() > 0 {
            if windows {
                texts(self.args_windows@)
            } else {
                texts(self.args_unix@)
            }
        } else {
            default_client_command()
        }
    }

    /// Whether `get_args` falls back on a deprecated setting, so that the
    /// caller can warn about it.
    pub fn uses_deprecated_args(&self) -> (deprecated: bool)
        ensures
            deprecated == self.deprecated_args_in_use(),
    {
        self.args.len() == 0 && (self.args_windows.len() > 0 || self.args_unix.len() > 0)
    }

    /// The command line of the client: `args` if it is set, else the
    /// deprecated setting for this kind of host if either of the two is set,
    /// else the default.
    pub fn get_args(&self, windows: bool) -> (args: Vec<String>)
        ensures
            texts(args@) == self.client_command(windows),
    {
        if self.args.len() > 0 {
            clone_strings(&self.args)
        } else if self.args_windows.len() > 0 || self.args_unix.len() > 0 {
            if windows {
                clone_strings(&self.args_windows)
            } else {
                clone_strings(&self.args_unix)
            }
        } else {
            default_remote_args()
        }
    }
}

impl Config {
    /// The place of the configuration file: `dockim/config.toml` below the
    /// user's configuration directory, where there is such a directory.
    pub fn config_file_path(config_dir: &Option<String>, separator: char) -> (path: Option<String>)
        ensures
            match config_dir {
                Some(dir) => path is Some && path->0@ == joined(
                    joined(dir@, "dockim"@, separator),
                    "config.toml"@,
                    separator,
                ),
                None => path is None,
            },
    {
        match config_dir {
            Some(dir) => {
                let base = join_path(&chars_of(dir.as_str()), "dockim", separator);
                Some(string_of(&join_path(&base, "config.toml", separator)))
            },
            None => None,
        }
    }

    /// The settings in force: those that were read from the configuration
    /// file, or the defaults where there is no such file.
    pub fn load_config(stored: Option<Config>) -> (config: Config)
        ensures
            match stored {
                Some(read) => config == read,
                None => config.shell@ == "/usr/bin/bash"@ && config.neovim_version@ == "v0.11.0"@
                    && texts(config.remote.args@) == default_client_command()
                    && !config.remote.background && !config.remote.use_clipboard_server,
            },
    {
        match stored {
            Some(read) => read,
            None => Config::default(),
        }
    }
}

} // verus!
