use dockim::build::compose::{
    build, check_prerequirements, compose, create_compose_command, ComposeArgs,
};
use dockim::cli::port::{
    add_port, added_message, list_ports, parse_port_descriptor, remove_port, PortCommandError,
    Removal,
};
use dockim::cli::{
    check_requirements, join_path, Args, PortAddArgs, PortRmArgs, Requirement, StopArgs, Subcommand,
};
use dockim::config::{
    default_dotfiles_install_command, default_dotfiles_repository_name,
    default_neovim_binary_repository, default_neovim_version, default_remote_args,
    default_remote_args_unix, default_remote_args_windows, default_remote_background,
    default_remote_use_clipboard_server, default_shell, Config, RemoteConfig,
};
use dockim::devcontainer::ForwardedPort;
use dockim::exec::{
    captured, captured_stdout, capturing, capturing_stdout, exec, exit_result, program_and_args,
    spawn, with_bytes_stdin, with_stdin, ExecFailure, Stream,
};

fn strings(items: &[&str]) -> Vec<String> {
    items.iter().map(|s| s.to_string()).collect()
}

fn args(workspace_folder: Option<&str>, config: Option<&str>) -> Args {
    Args {
        subcommand: Subcommand::Stop(StopArgs {}),
        workspace_folder: workspace_folder.map(|s| s.to_string()),
        config: config.map(|s| s.to_string()),
    }
}

fn pair(host: &str, container: &str) -> (String, String) {
    (host.to_string(), container.to_string())
}

#[test]
fn a_descriptor_names_one_or_two_ports() {
    assert_eq!(parse_port_descriptor("8080"), Ok(pair("8080", "8080")));
    assert_eq!(parse_port_descriptor("8080:1234"), Ok(pair("8080", "1234")));
    assert_eq!(parse_port_descriptor(""), Ok(pair("", "")));
    assert_eq!(parse_port_descriptor(":"), Ok(pair("", "")));
    assert_eq!(parse_port_descriptor("a:"), Ok(pair("a", "")));
    assert_eq!(parse_port_descriptor("1:2:3"), Err(PortCommandError::InvalidDescriptor));
    assert_eq!(parse_port_descriptor("::"), Err(PortCommandError::InvalidDescriptor));
}

#[test]
fn port_add_reads_its_descriptor() {
    let add = PortAddArgs { port_descriptor: "8080:80".to_string() };
    assert_eq!(add_port(&add), Ok(pair("8080", "80")));
    let bad = PortAddArgs { port_descriptor: "1:2:3".to_string() };
    assert_eq!(add_port(&bad), Err(PortCommandError::InvalidDescriptor));
    assert_eq!(added_message("8080", "80"), "Port forwarding started: 8080:80");
}

#[test]
fn port_rm_removes_one_relay_or_all() {
    let all = PortRmArgs { port_descriptor: Some("1:2:3".to_string()), all: true };
    assert!(matches!(remove_port(&all), Ok(Removal::All)));
    let one = PortRmArgs { port_descriptor: Some("8080:80".to_string()), all: false };
    match remove_port(&one) {
        Ok(Removal::One(host)) => assert_eq!(host, "8080"),
        other => panic!("unexpected {other:?}"),
    }
    let bad = PortRmArgs { port_descriptor: Some("1:2:3".to_string()), all: false };
    assert_eq!(remove_port(&bad).err(), Some(PortCommandError::InvalidDescriptor));
    let none = PortRmArgs { port_descriptor: None, all: false };
    assert_eq!(remove_port(&none).err(), Some(PortCommandError::MissingDescriptor));
}

#[test]
fn port_ls_prints_a_heading_and_a_line_for_each_relay() {
    assert_eq!(list_ports(&vec![]), vec!["No port forwards active"]);
    let ports = vec![
        ForwardedPort { host_port: "8080".to_string(), container_port: "80".to_string() },
        ForwardedPort { host_port: "3000".to_string(), container_port: "unknown".to_string() },
    ];
    assert_eq!(
        list_ports(&ports),
        vec!["Active port forwards:", "HOST:CONTAINER", "8080:80", "3000:unknown"]
    );
}

#[test]
fn the_workspace_folder_defaults_to_the_current_directory() {
    assert_eq!(args(None, None).resolve_workspace_folder(), ".");
    assert_eq!(args(Some("/work"), None).resolve_workspace_folder(), "/work");
}

#[test]
fn the_config_path_follows_the_argument() {
    assert_eq!(
        args(None, None).resolve_config_path("/work", '/'),
        "/work/.devcontainer/devcontainer.json"
    );
    assert_eq!(
        args(None, Some("rust")).resolve_config_path("/work/", '/'),
        "/work/.devcontainer/rust/devcontainer.json"
    );
    assert_eq!(
        args(None, Some("conf/dev.json")).resolve_config_path("/work", '/'),
        "conf/dev.json"
    );
    assert_eq!(
        args(None, Some("conf\\dev.json")).resolve_config_path("C:\\work", '\\'),
        "conf\\dev.json"
    );
    assert_eq!(
        args(None, Some("rust")).resolve_config_path("C:\\work", '\\'),
        "C:\\work\\.devcontainer\\rust\\devcontainer.json"
    );
    assert_eq!(
        args(None, None).resolve_config_path("", '/'),
        ".devcontainer/devcontainer.json"
    );
    let joined: String = join_path(&"a".chars().collect(), "b", '/').into_iter().collect();
    assert_eq!(joined, "a/b");
}

#[test]
fn the_defaults_are_as_documented() {
    assert_eq!(default_shell(), "/usr/bin/bash");
    assert_eq!(default_neovim_version(), "v0.11.0");
    assert_eq!(default_neovim_binary_repository(), "https://github.com/neovim/neovim");
    assert_eq!(default_dotfiles_repository_name(), "dotfiles");
    assert_eq!(
        default_dotfiles_install_command(),
        "echo 'no dotfiles install command configured'"
    );
    let client = strings(&["nvim", "--server", "{server}", "--remote-ui"]);
    assert_eq!(default_remote_args_unix(), client);
    assert_eq!(default_remote_args_windows(), client);
    assert_eq!(default_remote_args(), client);
    assert!(!default_remote_background());
    assert!(!default_remote_use_clipboard_server());
    let config = Config::default();
    assert_eq!(config.shell, "/usr/bin/bash");
    assert_eq!(config.neovim_version, "v0.11.0");
    assert_eq!(config.remote.args, client);
    assert!(!config.remote.background);
    let remote = RemoteConfig::default();
    assert_eq!(remote.args_unix, client);
    assert_eq!(remote.args_windows, client);
    assert!(!remote.use_clipboard_server);
}

#[test]
fn the_client_command_prefers_args() {
    let mut remote = RemoteConfig::default();
    remote.args = strings(&["a"]);
    remote.args_unix = strings(&["u"]);
    remote.args_windows = strings(&["w"]);
    assert_eq!(remote.get_args(false), strings(&["a"]));
    assert_eq!(remote.get_args(true), strings(&["a"]));
    assert!(!remote.uses_deprecated_args());
    remote.args = vec![];
    assert_eq!(remote.get_args(false), strings(&["u"]));
    assert_eq!(remote.get_args(true), strings(&["w"]));
    assert!(remote.uses_deprecated_args());
    remote.args_unix = vec![];
    assert_eq!(remote.get_args(false), Vec::<String>::new());
    assert_eq!(remote.get_args(true), strings(&["w"]));
    remote.args_windows = vec![];
    assert_eq!(remote.get_args(true), strings(&["nvim", "--server", "{server}", "--remote-ui"]));
    assert!(!remote.uses_deprecated_args());
}

#[test]
fn compose_commands_name_every_compose_file() {
    let none = ComposeArgs { compose_files: vec![] };
    assert_eq!(create_compose_command(&none), strings(&["docker", "compose"]));
    assert_eq!(check_prerequirements(&none), strings(&["docker", "compose", "version"]));
    let two = ComposeArgs { compose_files: strings(&["a.yml", "b.yml"]) };
    assert_eq!(
        create_compose_command(&two),
        strings(&["docker", "compose", "-f", "a.yml", "-f", "b.yml"])
    );
    assert_eq!(
        check_prerequirements(&two),
        strings(&["docker", "compose", "-f", "a.yml", "-f", "b.yml", "version"])
    );
    assert_eq!(
        compose(&two),
        strings(&["docker", "compose", "-f", "a.yml", "-f", "b.yml", "build"])
    );
    assert_eq!(build(&two), vec![compose(&two)]);
}

#[test]
fn a_command_line_is_a_program_and_its_arguments() {
    assert_eq!(program_and_args(&vec![]).err(), Some(ExecFailure::NoCommand));
    assert_eq!(
        program_and_args(&strings(&["docker"])),
        Ok(("docker".to_string(), vec![]))
    );
    assert_eq!(
        program_and_args(&strings(&["docker", "stop", "x"])),
        Ok(("docker".to_string(), strings(&["stop", "x"])))
    );
}

#[test]
fn a_command_succeeds_with_a_successful_exit_only() {
    assert_eq!(exit_result(Some(true)), Ok(()));
    assert_eq!(exit_result(Some(false)), Err(ExecFailure::Unsuccessful));
    assert_eq!(exit_result(None), Err(ExecFailure::NotRun));
    let ok = captured(true, "out".to_string(), "err".to_string()).ok().unwrap();
    assert_eq!((ok.stdout.as_str(), ok.stderr.as_str()), ("out", "err"));
    let failed = captured(false, "out".to_string(), "err".to_string()).err().unwrap();
    assert_eq!((failed.stdout.as_str(), failed.stderr.as_str()), ("out", "err"));
    assert_eq!(captured_stdout(true, "out".to_string()), Ok("out".to_string()));
    assert_eq!(captured_stdout(false, "out".to_string()), Err(ExecFailure::Unsuccessful));
}

#[test]
fn every_way_to_run_a_process_has_its_streams() {
    let line = strings(&["docker", "ps", "-q"]);
    let streams = |planned: Result<dockim::exec::Invocation, ExecFailure>| {
        let i = planned.unwrap();
        assert_eq!(i.program, "docker");
        assert_eq!(i.args, strings(&["ps", "-q"]));
        (i.stdin, i.stdout, i.stderr)
    };
    assert_eq!(streams(spawn(&line)), (Stream::Null, Stream::Inherit, Stream::Inherit));
    assert_eq!(streams(exec(&line)), (Stream::Inherit, Stream::Inherit, Stream::Inherit));
    assert_eq!(streams(with_stdin(&line)), (Stream::Given, Stream::Inherit, Stream::Inherit));
    assert_eq!(streams(with_bytes_stdin(&line)), (Stream::Piped, Stream::Inherit, Stream::Inherit));
    assert_eq!(streams(capturing_stdout(&line)), (Stream::Null, Stream::Piped, Stream::Piped));
    let collected = capturing(&line).ok().unwrap();
    assert_eq!(
        (collected.stdin, collected.stdout, collected.stderr),
        (Stream::Null, Stream::Piped, Stream::Piped)
    );
}

#[test]
fn an_empty_command_line_is_not_run() {
    let empty: Vec<String> = vec![];
    assert_eq!(spawn(&empty).err(), Some(ExecFailure::NoCommand));
    assert_eq!(exec(&empty).err(), Some(ExecFailure::NoCommand));
    assert_eq!(with_stdin(&empty).err(), Some(ExecFailure::NoCommand));
    assert_eq!(with_bytes_stdin(&empty).err(), Some(ExecFailure::NoCommand));
    assert_eq!(capturing_stdout(&empty).err(), Some(ExecFailure::NoCommand));
    let refused = capturing(&empty).err().unwrap();
    assert_eq!((refused.stdout.as_str(), refused.stderr.as_str()), ("", "no command provided to exec"));
}

#[test]
fn the_first_missing_requirement_is_reported() {
    assert_eq!(check_requirements(true, true), Ok(()));
    assert_eq!(check_requirements(false, true), Err(Requirement::DevcontainerCli));
    assert_eq!(check_requirements(false, false), Err(Requirement::DevcontainerCli));
    assert_eq!(check_requirements(true, false), Err(Requirement::Docker));
}

#[test]
fn the_configuration_file_lies_below_the_configuration_directory() {
    assert_eq!(
        Config::config_file_path(&Some("/home/u/.config".to_string()), '/'),
        Some("/home/u/.config/dockim/config.toml".to_string())
    );
    assert_eq!(
        Config::config_file_path(&Some("C:\\Users\\u\\AppData\\".to_string()), '\\'),
        Some("C:\\Users\\u\\AppData\\dockim\\config.toml".to_string())
    );
    assert_eq!(Config::config_file_path(&None, '/'), None);
}

#[test]
fn without_a_configuration_file_the_defaults_are_in_force() {
    assert_eq!(Config::load_config(None), Config::default());
    let mut stored = Config::default();
    stored.shell = "/bin/zsh".to_string();
    stored.remote.background = true;
    assert_eq!(Config::load_config(Some(stored.clone())), stored);
}
