use dockim::devcontainer::{
    cli_version_args, docker_stop_args, relay_stopped, removal_report, ContainerNetwork,
    DevContainer, ExecError, ForwardedPort, HostOs, OverridenConfigPaths, PendingForward,
    PortForwardGuard, RelayError, RootMode, UpInspection, UpOutput,
};
use dockim::relay::relay_container_name;

fn session_on(host: HostOs) -> DevContainer {
    DevContainer::new(
        host,
        "/work".to_string(),
        "/work/.devcontainer/devcontainer.json".to_string(),
        OverridenConfigPaths {
            devcontainer_json: "/tmp/a.json".to_string(),
            root_devcontainer_json: "/tmp/b.json".to_string(),
        },
    )
}

fn session() -> DevContainer {
    session_on(HostOs::Linux)
}

fn up_output() -> UpOutput {
    UpOutput {
        outcome: "success".to_string(),
        container_id: "abc123".to_string(),
        remote_user: "vscode".to_string(),
        remote_workspace_folder: "/workspace".to_string(),
    }
}

fn inspected() -> DevContainer {
    let mut dc = session();
    dc.cache_up_output(up_output());
    dc
}

fn network() -> ContainerNetwork {
    ContainerNetwork { name: "bridge".to_string(), ip_address: "172.17.0.2".to_string() }
}

fn failure() -> ExecError {
    ExecError { message: "exit status 1".to_string() }
}

fn guard(name: &str) -> PortForwardGuard {
    PendingForward { command: vec![], socat_container_name: name.to_string() }
        .launched(Ok(()))
        .unwrap()
}

fn entries(ports: &[ForwardedPort]) -> Vec<(String, String)> {
    ports.iter().map(|p| (p.host_port.clone(), p.container_port.clone())).collect()
}

fn pair(host: &str, container: &str) -> (String, String) {
    (host.to_string(), container.to_string())
}

#[test]
fn relay_name_is_made_of_session_and_host_port() {
    assert_eq!(relay_container_name("abc123", "8080"), "dockim-abc123-relay-8080");
    assert_eq!(relay_container_name("abc123", ""), "dockim-abc123-relay-");
}

#[test]
fn root_mode_is_required_only_for_yes() {
    assert!(RootMode::Yes.is_required());
    assert!(!RootMode::No.is_required());
}

#[test]
fn make_args_names_the_override_for_the_mode() {
    let dc = session();
    assert_eq!(
        dc.make_args(RootMode::No, "exec"),
        vec![
            "devcontainer", "exec", "--workspace-folder", "/work", "--config",
            "/work/.devcontainer/devcontainer.json", "--override-config", "/tmp/a.json",
        ]
    );
    assert_eq!(
        dc.make_args(RootMode::Yes, "up"),
        vec![
            "devcontainer", "up", "--workspace-folder", "/work", "--config",
            "/work/.devcontainer/devcontainer.json", "--override-config", "/tmp/b.json",
        ]
    );
}

#[test]
fn the_tool_has_another_name_on_windows() {
    assert_eq!(session_on(HostOs::Windows).devcontainer_command(), "devcontainer.cmd");
    assert_eq!(session_on(HostOs::MacOs).devcontainer_command(), "devcontainer");
    assert_eq!(session_on(HostOs::Linux).devcontainer_command(), "devcontainer");
}

#[test]
fn up_appends_the_flags_and_forgets_on_rebuild() {
    let mut dc = inspected();
    let plain = dc.up(false, false);
    assert_eq!(plain.len(), 8);
    assert_eq!(plain[1], "up");
    assert!(matches!(dc.up_and_inspect(), UpInspection::Cached(_)));
    let cached = dc.up(false, true);
    assert_eq!(cached[8..].to_vec(), vec!["--build-no-cache"]);
    assert!(matches!(dc.up_and_inspect(), UpInspection::Cached(_)));
    let rebuilt = dc.up(true, true);
    assert_eq!(rebuilt[8..].to_vec(), vec!["--remove-existing-container", "--build-no-cache"]);
    assert!(matches!(dc.up_and_inspect(), UpInspection::Run(_)));
}

#[test]
fn up_and_inspect_runs_the_tool_until_the_output_is_cached() {
    let mut dc = session();
    match dc.up_and_inspect() {
        UpInspection::Run(args) => assert_eq!(args, dc.make_args(RootMode::No, "up")),
        UpInspection::Cached(_) => panic!("nothing was cached"),
    }
    dc.cache_up_output(up_output());
    match dc.up_and_inspect() {
        UpInspection::Cached(up) => {
            assert_eq!(up.container_id, "abc123");
            assert_eq!(up.remote_workspace_folder, "/workspace");
            assert_eq!(up.remote_user, "vscode");
            assert_eq!(up.outcome, "success");
        }
        UpInspection::Run(_) => panic!("the output was cached"),
    }
    dc.clear_cache();
    assert!(matches!(dc.up_and_inspect(), UpInspection::Run(_)));
}

#[test]
fn spawn_appends_the_command() {
    let dc = session();
    let args = dc.spawn(&vec!["nvim".to_string(), "--headless".to_string()], RootMode::No);
    let mut expected = dc.make_args(RootMode::No, "exec");
    expected.push("nvim".to_string());
    expected.push("--headless".to_string());
    assert_eq!(args, expected);
    assert_eq!(dc.spawn(&vec![], RootMode::Yes), dc.make_args(RootMode::Yes, "exec"));
}

#[test]
fn relay_operations_need_an_inspected_session() {
    let dc = session();
    assert_eq!(dc.socat_container_name("8080").err(), Some(RelayError::SessionUnavailable));
    assert_eq!(
        dc.forward_port(&network(), "8080", "80").err(),
        Some(RelayError::SessionUnavailable)
    );
    assert_eq!(dc.stop_forward_port("8080").err(), Some(RelayError::SessionUnavailable));
    assert_eq!(dc.list_forwarded_ports_args().err(), Some(RelayError::SessionUnavailable));
    assert_eq!(
        dc.remove_all_forwarded_ports(&vec![]).err(),
        Some(RelayError::SessionUnavailable)
    );
}

#[test]
fn forward_port_plans_the_relay_command() {
    let dc = inspected();
    let pending = dc.forward_port(&network(), "8080", "80").unwrap();
    assert_eq!(pending.socat_container_name, "dockim-abc123-relay-8080");
    assert_eq!(
        pending.command,
        vec![
            "docker", "run", "-d", "--rm", "--net", "bridge", "--name",
            "dockim-abc123-relay-8080", "-p", "8080:1234", "alpine/socat",
            "TCP-LISTEN:1234,fork", "TCP-CONNECT:172.17.0.2:80",
        ]
    );
}

#[test]
fn a_started_relay_hands_out_its_guard() {
    let dc = inspected();
    let pending = dc.forward_port(&network(), "8080", "80").unwrap();
    let guard = pending.launched(Ok(())).unwrap();
    assert_eq!(guard.container_name(), "dockim-abc123-relay-8080");
    assert_eq!(guard.stop_args(), vec!["docker", "stop", "dockim-abc123-relay-8080"]);
}

#[test]
fn a_relay_that_did_not_start_is_a_launch_failure() {
    let dc = inspected();
    let pending = dc.forward_port(&network(), "8080", "80").unwrap();
    assert_eq!(pending.launched(Err(failure())).err(), Some(RelayError::LaunchFailed));
}

#[test]
fn a_released_guard_gives_its_name_back() {
    assert_eq!(guard("dockim-abc123-relay-9000").release(), "dockim-abc123-relay-9000");
}

#[test]
fn stop_forward_port_stops_the_named_relay() {
    let dc = inspected();
    assert_eq!(
        dc.stop_forward_port("8080").unwrap(),
        vec!["docker", "stop", "dockim-abc123-relay-8080"]
    );
    assert_eq!(docker_stop_args("x"), vec!["docker", "stop", "x"]);
}

#[test]
fn stopping_a_relay_that_is_not_there_is_not_found() {
    assert_eq!(relay_stopped(Ok(())), Ok(()));
    assert_eq!(relay_stopped(Err(failure())), Err(RelayError::NotFound));
}

#[test]
fn the_listing_is_filtered_by_the_name_prefix() {
    let dc = inspected();
    assert_eq!(
        dc.list_forwarded_ports_args().unwrap(),
        vec![
            "docker", "ps", "--filter", "name=dockim-abc123-relay-", "--format",
            "{{.Names}}\t{{.Command}}", "--no-trunc",
        ]
    );
}

#[test]
fn the_listing_reads_host_and_container_port() {
    let dc = inspected();
    let listing = "dockim-abc123-relay-8080\t\"socat TCP-LISTEN:1234,fork TCP-CONNECT:172.17.0.2:80\"\n\
                   dockim-abc123-relay-3000\t\"socat TCP-LISTEN:1234,fork TCP-CONNECT:172.17.0.2:3000\"\n";
    let ports = dc.list_forwarded_ports(listing);
    assert_eq!(entries(&ports), vec![pair("8080", "80"), pair("3000", "3000")]);
}

#[test]
fn an_unrecognised_command_is_listed_as_unknown() {
    let dc = inspected();
    let ports = dc.list_forwarded_ports("dockim-abc123-relay-8080\tsleep infinity\n");
    assert_eq!(entries(&ports), vec![pair("8080", "unknown")]);
    let ports = dc.list_forwarded_ports("dockim-abc123-relay-8080\t");
    assert_eq!(entries(&ports), vec![pair("8080", "unknown")]);
    let ports = dc.list_forwarded_ports("dockim-abc123-relay-8080\tTCP-CONNECT:nocolon");
    assert_eq!(entries(&ports), vec![pair("8080", "unknown")]);
}

#[test]
fn a_later_argument_can_name_the_container_port() {
    let dc = inspected();
    let ports =
        dc.list_forwarded_ports("dockim-abc123-relay-1\tTCP-CONNECT:nocolon TCP-CONNECT:10.0.0.1:22");
    assert_eq!(entries(&ports), vec![pair("1", "22")]);
}

#[test]
fn the_container_port_is_the_second_field_after_the_marker() {
    let dc = inspected();
    let ports = dc.list_forwarded_ports("n-1\txTCP-CONNECT:a:b:c\"\"");
    assert_eq!(entries(&ports), vec![pair("1", "b")]);
    let ports = dc.list_forwarded_ports("n-1\tTCP-CONNECT:a:77\"TCP-CONNECT:z:9");
    assert_eq!(entries(&ports), vec![pair("1", "77")]);
    let ports = dc.list_forwarded_ports("n-1\tTCP-CONNECT:a:\"\"");
    assert_eq!(entries(&ports), vec![pair("1", "")]);
}

#[test]
fn lines_without_a_tab_are_skipped() {
    let dc = inspected();
    let ports = dc.list_forwarded_ports("garbage\n\nname-7\tTCP-CONNECT:h:8\r\nmore garbage");
    assert_eq!(entries(&ports), vec![pair("7", "8")]);
    assert!(dc.list_forwarded_ports("").is_empty());
}

#[test]
fn a_name_without_a_hyphen_is_its_own_host_port() {
    let dc = inspected();
    let ports = dc.list_forwarded_ports("relay\tTCP-CONNECT:h:8");
    assert_eq!(entries(&ports), vec![pair("relay", "8")]);
    let ports = dc.list_forwarded_ports("relay-\tTCP-CONNECT:h:8");
    assert_eq!(entries(&ports), vec![pair("", "8")]);
}

#[test]
fn the_listing_reads_back_what_forward_port_planned() {
    let dc = inspected();
    let mut listing = String::new();
    for (host, container) in [("8080", "80"), ("50123", "3000"), ("1", "65535")] {
        let pending = dc.forward_port(&network(), host, container).unwrap();
        let command = pending.command[11..].join(" ");
        listing.push_str(&format!("{}\t\"{}\"\n", pending.socat_container_name, command));
    }
    let ports = dc.list_forwarded_ports(&listing);
    assert_eq!(
        entries(&ports),
        vec![pair("8080", "80"), pair("50123", "3000"), pair("1", "65535")]
    );
}

#[test]
fn relays_of_different_host_ports_have_different_names() {
    let mut names: Vec<String> = Vec::new();
    for port in [1u16, 10, 100, 1000, 8080, 8081, 65535] {
        let name = relay_container_name("abc123", &port.to_string());
        assert!(!names.contains(&name));
        names.push(name);
    }
}

#[test]
fn remove_all_plans_one_stop_for_each_relay() {
    let dc = inspected();
    let ports = dc.list_forwarded_ports("a-1\tx\na-2\ty\n");
    let commands = dc.remove_all_forwarded_ports(&ports).unwrap();
    assert_eq!(
        commands,
        vec![
            vec!["docker", "stop", "dockim-abc123-relay-1"],
            vec!["docker", "stop", "dockim-abc123-relay-2"],
        ]
    );
    assert!(dc.remove_all_forwarded_ports(&vec![]).unwrap().is_empty());
}

#[test]
fn the_removal_report_names_what_was_not_stopped() {
    let dc = inspected();
    let ports = dc.list_forwarded_ports("a-1\tx\na-2\ty\na-3\tz\n");
    assert_eq!(removal_report(&ports, &vec![true, true, true]), Ok(()));
    assert_eq!(
        removal_report(&ports, &vec![true, false, true]),
        Err(vec!["2".to_string()])
    );
    assert_eq!(
        removal_report(&ports, &vec![false]),
        Err(vec!["1".to_string(), "2".to_string(), "3".to_string()])
    );
    assert_eq!(removal_report(&vec![], &vec![]), Ok(()));
}

#[test]
fn stop_and_down_go_by_the_compose_project() {
    let mut dc = inspected();
    assert_eq!(
        dc.stop(Some("proj".to_string())).unwrap(),
        vec![vec!["docker", "compose", "-p", "proj", "stop"]]
    );
    assert!(matches!(dc.up_and_inspect(), UpInspection::Run(_)));
    assert!(dc.stop(None).is_none());
    dc.cache_up_output(up_output());
    assert_eq!(dc.stop(None).unwrap(), vec![vec!["docker", "stop", "abc123"]]);
    dc.cache_up_output(up_output());
    assert_eq!(
        dc.down(None).unwrap(),
        vec![vec!["docker", "stop", "abc123"], vec!["docker", "rm", "abc123"]]
    );
    assert!(dc.down(None).is_none());
    dc.cache_up_output(up_output());
    assert_eq!(
        dc.down(Some("proj".to_string())).unwrap(),
        vec![vec!["docker", "compose", "-p", "proj", "down"]]
    );
}

#[test]
fn the_tool_is_asked_for_its_version() {
    assert_eq!(cli_version_args(HostOs::Linux), vec!["devcontainer", "--version"]);
    assert_eq!(cli_version_args(HostOs::MacOs), vec!["devcontainer", "--version"]);
    assert_eq!(cli_version_args(HostOs::Windows), vec!["devcontainer.cmd", "--version"]);
}

#[test]
fn the_container_is_inspected_by_its_identifier() {
    let dc = inspected();
    assert_eq!(
        dc.network_inspect_args().unwrap(),
        vec!["docker", "inspect", "--format", "{{ json .NetworkSettings.Networks }}", "abc123"]
    );
    assert_eq!(
        dc.labels_inspect_args().unwrap(),
        vec!["docker", "inspect", "--format", "{{json .Config.Labels}}", "abc123"]
    );
    let unknown = session();
    assert_eq!(unknown.network_inspect_args().err(), Some(RelayError::SessionUnavailable));
    assert_eq!(unknown.labels_inspect_args().err(), Some(RelayError::SessionUnavailable));
}

#[test]
fn the_shell_is_opened_with_the_tool() {
    let dc = session();
    let mut expected = dc.make_args(RootMode::Yes, "exec");
    expected.push("bash".to_string());
    assert_eq!(dc.shell_args(RootMode::Yes), expected);
}

#[test]
fn a_file_is_copied_by_a_script_in_the_container() {
    let dc = session();
    assert_eq!(
        dc.copy_file_host_to_container("/opt/x/y.json"),
        vec!["sh", "-c", "mkdir -p $(dirname /opt/x/y.json) && cat > /opt/x/y.json"]
    );
}

#[test]
fn captured_output_is_a_value_or_an_error() {
    let dc = session();
    let ok = dc.exec_capturing(Ok("out\n__EXIT_CODE_0__\n".to_string())).ok().unwrap();
    assert_eq!((ok.stdout.as_str(), ok.stderr.as_str()), ("out", ""));
    let plain = dc.exec_capturing(Ok("no exit code".to_string())).ok().unwrap();
    assert_eq!((plain.stdout.as_str(), plain.stderr.as_str()), ("no exit code", ""));
    let failed = dc.exec_capturing(Ok("oops\n__EXIT_CODE_2__\n".to_string())).err().unwrap();
    assert_eq!(
        (failed.stdout.as_str(), failed.stderr.as_str()),
        ("", "Command failed with exit code 2: oops")
    );
    let broken = dc.exec_capturing(Err("Unexpected EOF from shell".to_string())).err().unwrap();
    assert_eq!((broken.stdout.as_str(), broken.stderr.as_str()), ("", "Unexpected EOF from shell"));
}

#[test]
fn the_tool_is_installed_if_it_tells_its_version() {
    assert!(DevContainer::is_cli_installed(&Ok(())));
    assert!(!DevContainer::is_cli_installed(&Err(failure())));
}

#[test]
fn the_answer_of_the_shell_is_judged_by_its_exit_code() {
    let dc = session();
    assert_eq!(dc.exec_capturing_stdout("out\n__EXIT_CODE_0__\n"), Ok("out".to_string()));
    assert_eq!(dc.exec("out\n__EXIT_CODE_0__\n"), Ok(()));
    assert_eq!(dc.exec_with_bytes_stdin("__EXIT_CODE_0__"), Ok(()));
    let failed = dc.exec("oops \n__EXIT_CODE_3__\n").err().unwrap();
    assert_eq!((failed.exit_code, failed.output.as_str()), (3, "oops"));
    let failed = dc.exec_capturing_stdout("__EXIT_CODE_-7__").err().unwrap();
    assert_eq!((failed.exit_code, failed.output.as_str()), (-7, ""));
    assert_eq!(dc.exec_with_bytes_stdin("x__EXIT_CODE_1__").err().map(|f| f.exit_code), Some(1));
}
