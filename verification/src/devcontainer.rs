//! The dev container session and the relays that forward host ports into it.
//!
//! Nothing here starts a process. A relay is one container of the container
//! runtime, named after the session and the host port; the functions below
//! compute the command lines that start, stop and list such containers, and
//! read the listing back.

use crate::exec::ExecOutput;
use crate::persistent_shell::{
    command_result, failure_message, failure_text, parse_command_output, CommandFailure,
};
use crate::port::{
    find_random_available_port, searched, PortError, RANDOM_PORT_END, RANDOM_PORT_MIN,
};
use crate::relay::{
    entries_of, listing_entries, parse_listing_line, port_views, relay_container_name, relay_name,
};
use crate::text::{chars_of, lines, split_lines, texts, views};
use vstd::prelude::*;

verus! {

/// What `devcontainer up` reports about the running container.
#[derive(Debug, PartialEq, Eq)]
pub struct UpOutput {
    pub outcome: String,
    pub container_id: String,
    pub remote_user: String,
    pub remote_workspace_folder: String,
}

impl Clone for UpOutput {
    fn clone(&self) -> (copy: Self)
        ensures
            copy == *self,
    {
        UpOutput {
            outcome: self.outcome.clone(),
            container_id: self.container_id.clone(),
            remote_user: self.remote_user.clone(),
            remote_workspace_folder: self.remote_workspace_folder.clone(),
        }
    }
}

/// One active relay, as the listing shows it. The container port is
/// `unknown` where the relay's command line does not show it.
#[derive(Debug, PartialEq, Eq)]
pub struct ForwardedPort {
    pub host_port: String,
    pub container_port: String,
}

impl Clone for ForwardedPort {
    fn clone(&self) -> (copy: Self)
        ensures
            copy == *self,
    {
        ForwardedPort {
            host_port: self.host_port.clone(),
            container_port: self.container_port.clone(),
        }
    }
}

/// Whether a command runs as root inside the container.
#[derive(Debug, Clone, Copy, PartialEq, Eq, Hash, PartialOrd, Ord, Structural)]
pub enum RootMode {
    Yes,
    No,
}

impl RootMode {
    /// Whether root is asked for.
    pub fn is_required(self) -> (required: bool)
        ensures
            required == (self == RootMode::Yes),
    {
        match self {
            RootMode::Yes => true,
            RootMode::No => false,
        }
    }
}

/// Why a command that was run for the library failed. The library does not
/// look inside.
#[derive(Debug, Clone, PartialEq, Eq)]
pub struct ExecError {
    pub message: String,
}

/// Why a relay operation failed.
#[derive(Debug, Clone, Copy, PartialEq, Eq, Structural)]
pub enum RelayError {
    /// The relay container could not be started.
    LaunchFailed,
    /// No relay container of that name is running.
    NotFound,
    /// The container session has not been inspected, so its identity is not
    /// known.
    SessionUnavailable,
}

/// The network that the dev container is attached to and its address there.
#[derive(Debug, Clone, PartialEq, Eq)]
pub struct ContainerNetwork {
    pub name: String,
    pub ip_address: String,
}

/// The owner of one running relay. It cannot be copied: whoever holds it
/// decides whether the relay is stopped (`stop_args`) or left running
/// (`release`).
#[derive(Debug, PartialEq, Eq)]
pub struct PortForwardGuard {
    socat_container_name: String,
}

impl PortForwardGuard {
    /// The name of the relay container that the guard owns.
    pub closed spec fn name(&self) -> Seq<char> {
        self.socat_container_name@
    }

    /// The name of the relay container that the guard owns.
    pub fn container_name(&self) -> (name: &str)
        ensures
            name@ == self.name(),
    {
        self.socat_container_name.as_str()
    }

    /// Gives the guard up for teardown: the command line that stops the
    /// relay container.
    pub fn stop_args(self) -> (args: Vec<String>)
        ensures
            texts(args@) == stop_command(self.name()),
    {
        docker_stop_args(self.socat_container_name.as_str())
    }

    /// Gives the guard up without teardown: the relay keeps running, and its
    /// name is handed back.
    pub fn release(self) -> (name: String)
        ensures
            name@ == self.name(),
    {
        self.socat_container_name
    }
}

/// The command line that stops the container `name`.
pub open spec fn stop_command(name: Seq<char>) -> Seq<Seq<char>> {
    seq!["docker"@, "stop"@, name]
}

/// Builds the command line that stops the container `name`.
pub fn docker_stop_args(name: &str) -> (args: Vec<String>)
    ensures
        texts(args@) == stop_command(name@),
{
    let mut args: Vec<String> = Vec::new();
    args.push("docker".to_owned());
    args.push("stop".to_owned());
    args.push(name.to_owned());
    args
}

/// The operating system that the tool itself runs on.
#[derive(Debug, Clone, Copy, PartialEq, Eq, Structural)]
pub enum HostOs {
    Linux,
    MacOs,
    Windows,
}

/// The name under which the dev container command-line tool is started.
pub open spec fn devcontainer_program(host: HostOs) -> Seq<char> {
    if host == HostOs::Windows {
        "devcontainer.cmd"@
    } else {
        "devcontainer"@
    }
}

/// The two generated configuration files that are passed to the dev container
/// tool in place of the user's own: one as it stands and one with root as the
/// remote user.
#[derive(Debug, Clone, PartialEq, Eq)]
pub struct OverridenConfigPaths {
    pub devcontainer_json: String,
    pub root_devcontainer_json: String,
}

/// One dev container session: where its workspace and configuration are, and
/// what is known of the running container.
#[derive(Debug)]
pub struct DevContainer {
    host: HostOs,
    workspace_folder: String,
    config_path: String,
    overriden_config_paths: OverridenConfigPaths,
    cached_up_output: Option<UpOutput>,
}

/// What has to happen before the container's identity is known.
#[derive(Debug, PartialEq, Eq)]
pub enum UpInspection {
    /// The identity is known already.
    Cached(UpOutput),
    /// This command line has to be run; its output describes the container.
    Run(Vec<String>),
}

/// A relay that is about to be started: the command line that starts it and
/// the name that it will run under.
#[derive(Debug, PartialEq, Eq)]
pub struct PendingForward {
    pub command: Vec<String>,
    pub socat_container_name: String,
}

/// The command line that starts the relay `name` from `host_port` to
/// `container_port` of the container at `ip_address` in `network`.
pub open spec fn relay_command(
    network: Seq<char>,
    ip_address: Seq<char>,
    name: Seq<char>,
    host_port: Seq<char>,
    container_port: Seq<char>,
) -> Seq<Seq<char>> {
    seq![
        "docker"@,
        "run"@,
        "-d"@,
        "--rm"@,
        "--net"@,
        network,
        "--name"@,
        name,
        "-p"@,
        host_port + ":1234"@,
        "alpine/socat"@,
        "TCP-LISTEN:1234,fork"@,
        "TCP-CONNECT:"@ + ip_address + ":"@ + container_port,
    ]
}

/// The command line that lists the relays whose names start with `prefix`,
/// one per line: the name, a tab, and the relay's own command line.
pub open spec fn listing_command(prefix: Seq<char>) -> Seq<Seq<char>> {
    seq![
        "docker"@,
        "ps"@,
        "--filter"@,
        "name="@ + prefix,
        "--format"@,
        "{{.Names}}\t{{.Command}}"@,
        "--no-trunc"@,
    ]
}

impl PendingForward {
    /// Ends the start of a relay: the guard of the relay if the command
    /// succeeded, and `LaunchFailed` if it did not.
    pub fn launched(self, outcome: Result<(), ExecError>) -> (started: Result<
        PortForwardGuard,
        RelayError,
    >)
        ensures
            match started {
                Ok(guard) => outcome is Ok && guard.name() == self.socat_container_name@,
                Err(e) => outcome is Err && e == RelayError::LaunchFailed,
            },
    {
        match outcome {
            Ok(_) => Ok(PortForwardGuard { socat_container_name: self.socat_container_name }),
            Err(_) => Err(RelayError::LaunchFailed),
        }
    }
}

/// The result of stopping a relay: an error of the stop command means that
/// no relay of that name was running.
pub fn relay_stopped(outcome: Result<(), ExecError>) -> (stopped: Result<(), RelayError>)
    ensures
        match stopped {
            Ok(_) => outcome is Ok,
            Err(e) => outcome is Err && e == RelayError::NotFound,
        },
{
    match outcome {
        Ok(_) => Ok(()),
        Err(_) => Err(RelayError::NotFound),
    }
}

impl DevContainer {
    /// A session whose container has not been inspected yet.
    pub fn new(
        host: HostOs,
        workspace_folder: String,
        config_path: String,
        overriden_config_paths: OverridenConfigPaths,
    ) -> (dc: Self)
        ensures
            dc.host() == host,
            dc.workspace_folder() == workspace_folder@,
            dc.config_path() == config_path@,
            dc.config_override(RootMode::No) == overriden_config_paths.devcontainer_json@,
            dc.config_override(RootMode::Yes) == overriden_config_paths.root_devcontainer_json@,
            dc.container_id() is None,
    {
        DevContainer {
            host,
            workspace_folder,
            config_path,
            overriden_config_paths,
            cached_up_output: None,
        }
    }

    /// The operating system of the host.
    pub closed spec fn host(&self) -> HostOs {
        self.host
    }

    /// The workspace folder on the host.
    pub closed spec fn workspace_folder(&self) -> Seq<char> {
        self.workspace_folder@
    }

    /// The user's dev container configuration file.
    pub closed spec fn config_path(&self) -> Seq<char> {
        self.config_path@
    }

    /// The generated configuration file that is used in the given mode.
    pub closed spec fn config_override(&self, root_mode: RootMode) -> Seq<char> {
        match root_mode {
            RootMode::Yes => self.overriden_config_paths.root_devcontainer_json@,
            RootMode::No => self.overriden_config_paths.devcontainer_json@,
        }
    }

    /// What is known of the running container.
    pub closed spec fn up_output(&self) -> Option<UpOutput> {
        self.cached_up_output
    }

    /// The identifier of the running container, once it has been inspected.
    pub open spec fn container_id(&self) -> Option<Seq<char>> {
        match self.up_output() {
            Some(up) => Some(up.container_id@),
            None => None,
        }
    }

    /// The command line of the dev container tool for `subcommand`.
    pub open spec fn args_for(&self, root_mode: RootMode, subcommand: Seq<char>) -> Seq<Seq<char>> {
        seq![
            devcontainer_program(self.host()),
            subcommand,
            "--workspace-folder"@,
            self.workspace_folder(),
            "--config"@,
            self.config_path(),
            "--override-config"@,
            self.config_override(root_mode),
        ]
    }

    /// The name under which the dev container tool is started on this host.
    pub fn devcontainer_command(&self) -> (program: String)
        ensures
            program@ == devcontainer_program(self.host()),
    {
        match self.host {
            HostOs::Windows => "devcontainer.cmd".to_owned(),
            _ => "devcontainer".to_owned(),
        }
    }

    /// Builds the command line of the dev container tool for `subcommand`.
    pub fn make_args(&self, root_mode: RootMode, subcommand: &str) -> (args: Vec<String>)
        ensures
            texts(args@) == self.args_for(root_mode, subcommand@),
    {
        let mut args: Vec<String> = Vec::new();
        args.push(self.devcontainer_command());
        args.push(subcommand.to_owned());
        args.push("--workspace-folder".to_owned());
        args.push(self.workspace_folder.clone());
        args.push("--config".to_owned());
        args.push(self.config_path.clone());
        args.push("--override-config".to_owned());
        if root_mode.is_required() {
            args.push(self.overriden_config_paths.root_devcontainer_json.clone());
        } else {
            args.push(self.overriden_config_paths.devcontainer_json.clone());
        }
        args
    }
}

impl DevContainer {
    /// The command line that brings the container up. A rebuild makes what
    /// was known of the old container worthless, so it is forgotten.
    pub fn up(&mut self, rebuild: bool, build_no_cache: bool) -> (args: Vec<String>)
        ensures
            texts(args@) == old(self).args_for(RootMode::No, "up"@) + (if rebuild {
                seq!["--remove-existing-container"@]
            } else {
                Seq::<Seq<char>>::empty()
            }) + (if build_no_cache {
                seq!["--build-no-cache"@]
            } else {
                Seq::<Seq<char>>::empty()
            }),
            final(self).up_output() == (if rebuild {
                None
            } else {
                old(self).up_output()
            }),
            final(self).host() == old(self).host(),
            final(self).workspace_folder() == old(self).workspace_folder(),
            final(self).config_path() == old(self).config_path(),
            forall|mode: RootMode|
                final(self).config_override(mode) == old(self).config_override(mode),
    {
        let mut args = self.make_args(RootMode::No, "up");
        let ghost base = texts(args@);
        if rebuild {
            args.push("--remove-existing-container".to_owned());
        }
        if build_no_cache {
            args.push("--build-no-cache".to_owned());
        }
        if rebuild {
            self.cached_up_output = None;
        }
        args
    }

    /// What is known of the running container, or the command line whose
    /// output tells it.
    pub fn up_and_inspect(&self) -> (inspection: UpInspection)
        ensures
            match inspection {
                UpInspection::Cached(up) => self.up_output() == Some(up),
                UpInspection::Run(args) => self.up_output() is None && texts(args@)
                    == self.args_for(RootMode::No, "up"@),
            },
    {
        match &self.cached_up_output {
            Some(up) => UpInspection::Cached(up.clone()),
            None => UpInspection::Run(self.make_args(RootMode::No, "up")),
        }
    }

    /// Remembers what the dev container tool reported about the container.
    pub fn cache_up_output(&mut self, up: UpOutput)
        ensures
            final(self).up_output() == Some(up),
            final(self).host() == old(self).host(),
            final(self).workspace_folder() == old(self).workspace_folder(),
            final(self).config_path() == old(self).config_path(),
            forall|mode: RootMode|
                final(self).config_override(mode) == old(self).config_override(mode),
    {
        self.cached_up_output = Some(up);
    }

    /// Forgets what is known of the container, as after it was stopped.
    pub fn clear_cache(&mut self)
        ensures
            final(self).up_output() is None,
            final(self).host() == old(self).host(),
            final(self).workspace_folder() == old(self).workspace_folder(),
            final(self).config_path() == old(self).config_path(),
            forall|mode: RootMode|
                final(self).config_override(mode) == old(self).config_override(mode),
    {
        self.cached_up_output = None;
    }

    /// The command line that runs `command` inside the container.
    pub fn spawn(&self, command: &Vec<String>, root_mode: RootMode) -> (args: Vec<String>)
        ensures
            texts(args@) == self.args_for(root_mode, "exec"@) + texts(command@),
    {
        let mut args = self.make_args(root_mode, "exec");
        let ghost base = texts(args@);
        let mut i: usize = 0;
        while i < command.len()
            invariant
                i <= command.len(),
                base == self.args_for(root_mode, "exec"@),
                args.len() == base.len() + i,
                forall|j: int| 0 <= j < base.len() ==> (#[trigger] args@[j])@ == base[j],
                forall|j: int| 0 <= j < i ==> (#[trigger] args@[base.len() + j])@ == command@[j]@,
            decreases command.len() - i,
        {
            args.push(command[i].clone());
            i += 1;
        }
        assert(texts(args@) =~= base + texts(command@)) by {
            assert forall|k: int| 0 <= k < args.len() implies texts(args@)[k] == (base + texts(
                command@,
            ))[k] by {
                if k >= base.len() {
                    assert(args@[base.len() + (k - base.len())]@ == command@[k - base.len()]@);
                }
            }
        }
        args
    }

    /// The name of the relay container for `host_port`. It is known once the
    /// container has been inspected.
    pub fn socat_container_name(&self, host_port: &str) -> (name: Result<String, RelayError>)
        ensures
            match name {
                Ok(n) => self.container_id() is Some && n@ == relay_name(
                    self.container_id()->0,
                    host_port@,
                ),
                Err(e) => self.container_id() is None && e == RelayError::SessionUnavailable,
            },
    {
        match &self.cached_up_output {
            Some(up) => Ok(relay_container_name(up.container_id.as_str(), host_port)),
            None => Err(RelayError::SessionUnavailable),
        }
    }

    /// Plans the relay from `host_port` to `container_port`: its name and
    /// the command line that starts it on the container's network.
    pub fn forward_port(
        &self,
        network: &ContainerNetwork,
        host_port: &str,
        container_port: &str,
    ) -> (pending: Result<PendingForward, RelayError>)
        ensures
            match pending {
                Ok(p) => self.container_id() is Some && p.socat_container_name@ == relay_name(
                    self.container_id()->0,
                    host_port@,
                ) && texts(p.command@) == relay_command(
                    network.name@,
                    network.ip_address@,
                    p.socat_container_name@,
                    host_port@,
                    container_port@,
                ),
                Err(e) => self.container_id() is None && e == RelayError::SessionUnavailable,
            },
    {
        let name = match self.socat_container_name(host_port) {
            Ok(name) => name,
            Err(e) => {
                return Err(e);
            },
        };
        let mut publish = host_port.to_owned();
        publish.append(":1234");
        let mut target = "TCP-CONNECT:".to_owned();
        target.append(network.ip_address.as_str());
        target.append(":");
        target.append(container_port);
        let mut command: Vec<String> = Vec::new();
        command.push("docker".to_owned());
        command.push("run".to_owned());
        command.push("-d".to_owned());
        command.push("--rm".to_owned());
        command.push("--net".to_owned());
        command.push(network.name.clone());
        command.push("--name".to_owned());
        command.push(name.clone());
        command.push("-p".to_owned());
        command.push(publish);
        command.push("alpine/socat".to_owned());
        command.push("TCP-LISTEN:1234,fork".to_owned());
        command.push(target);
        Ok(PendingForward { command, socat_container_name: name })
    }

    /// The command line that stops the relay of `host_port`.
    pub fn stop_forward_port(&self, host_port: &str) -> (args: Result<Vec<String>, RelayError>)
        ensures
            match args {
                Ok(a) => self.container_id() is Some && texts(a@) == stop_command(
                    relay_name(self.container_id()->0, host_port@),
                ),
                Err(e) => self.container_id() is None && e == RelayError::SessionUnavailable,
            },
    {
        match self.socat_container_name(host_port) {
            Ok(name) => Ok(docker_stop_args(name.as_str())),
            Err(e) => Err(e),
        }
    }

    /// The command line that lists the relays of this session.
    pub fn list_forwarded_ports_args(&self) -> (args: Result<Vec<String>, RelayError>)
        ensures
            match args {
                Ok(a) => self.container_id() is Some && texts(a@) == listing_command(
                    relay_name(self.container_id()->0, Seq::empty()),
                ),
                Err(e) => self.container_id() is None && e == RelayError::SessionUnavailable,
            },
    {
        let prefix = match self.socat_container_name("") {
            Ok(prefix) => prefix,
            Err(e) => {
                return Err(e);
            },
        };
        proof {
            reveal_strlit("");
        }
        let mut filter = "name=".to_owned();
        filter.append(prefix.as_str());
        let mut args: Vec<String> = Vec::new();
        args.push("docker".to_owned());
        args.push("ps".to_owned());
        args.push("--filter".to_owned());
        args.push(filter);
        args.push("--format".to_owned());
        args.push("{{.Names}}\t{{.Command}}".to_owned());
        args.push("--no-trunc".to_owned());
        Ok(args)
    }
}

impl DevContainer {
    /// Reads the output of the listing command: one relay for each line that
    /// holds a tab, in the order of the lines. The host port is what the
    /// relay's name ends in; the container port comes from the relay's own
    /// command line and is `unknown` where that does not show it.
    pub fn list_forwarded_ports(&self, listing: &str) -> (ports: Vec<ForwardedPort>)
        ensures
            port_views(ports@) == listing_entries(listing@),
    {
        let output = chars_of(listing);
        let all = split_lines(&output);
        let mut ports: Vec<ForwardedPort> = Vec::new();
        let mut i: usize = 0;
        while i < all.len()
            invariant
                i <= all.len(),
                views(all@) == lines(listing@),
                port_views(ports@) == entries_of(lines(listing@), i as int),
            decreases all.len() - i,
        {
            match parse_listing_line(&all[i]) {
                Some(entry) => {
                    ports.push(entry);
                },
                None => {
                },
            }
            i += 1;
        }
        ports
    }
}

/// The host ports of the first `n` of `ports` whose stop command did not
/// succeed. A port without an outcome counts as not stopped.
pub open spec fn failed_host_ports(ports: Seq<ForwardedPort>, outcomes: Seq<bool>, n: int) -> Seq<
    Seq<char>,
>
    decreases n,
{
    if n <= 0 {
        Seq::empty()
    } else {
        failed_host_ports(ports, outcomes, n - 1) + (if n - 1 < outcomes.len() && outcomes[n
            - 1] {
            Seq::empty()
        } else {
            seq![ports[n - 1].host_port@]
        })
    }
}

/// Sums up the removal of all relays: `outcomes[i]` tells whether the stop
/// command of `ports[i]` succeeded. The removal succeeded if every relay was
/// stopped; otherwise the host ports of those that were not are reported, in
/// the order of `ports`.
pub fn removal_report(ports: &Vec<ForwardedPort>, outcomes: &Vec<bool>) -> (report: Result<
    (),
    Vec<String>,
>)
    ensures
        match report {
            Ok(_) => failed_host_ports(ports@, outcomes@, ports.len() as int).len() == 0,
            Err(failed) => failed.len() > 0 && texts(failed@) == failed_host_ports(
                ports@,
                outcomes@,
                ports.len() as int,
            ),
        },
{
    let mut failed: Vec<String> = Vec::new();
    let mut i: usize = 0;
    while i < ports.len()
        invariant
            i <= ports.len(),
            texts(failed@) == failed_host_ports(ports@, outcomes@, i as int),
        decreases ports.len() - i,
    {
        if !(i < outcomes.len() && outcomes[i]) {
            failed.push(ports[i].host_port.clone());
        }
        i += 1;
    }
    if failed.len() == 0 {
        Ok(())
    } else {
        Err(failed)
    }
}

impl DevContainer {
    /// The command lines that stop the listed relays, one for each of
    /// `ports` and in their order.
    pub fn remove_all_forwarded_ports(&self, ports: &Vec<ForwardedPort>) -> (commands: Result<
        Vec<Vec<String>>,
        RelayError,
    >)
        ensures
            match commands {
                Ok(c) => self.container_id() is Some && c.len() == ports.len() && forall|i: int|
                    0 <= i < ports.len() ==> texts((#[trigger] c@[i])@) == stop_command(
                        relay_name(self.container_id()->0, ports@[i].host_port@),
                    ),
                Err(e) => self.container_id() is None && e == RelayError::SessionUnavailable,
            },
    {
        let mut commands: Vec<Vec<String>> = Vec::new();
        if self.cached_up_output.is_none() {
            return Err(RelayError::SessionUnavailable);
        }
        let mut i: usize = 0;
        while i < ports.len()
            invariant
                i <= ports.len(),
                self.container_id() is Some,
                commands.len() == i,
                forall|j: int|
                    0 <= j < i ==> texts((#[trigger] commands@[j])@) == stop_command(
                        relay_name(self.container_id()->0, ports@[j].host_port@),
                    ),
            decreases ports.len() - i,
        {
            match self.stop_forward_port(ports[i].host_port.as_str()) {
                Ok(command) => {
                    commands.push(command);
                },
                Err(e) => {
                    return Err(e);
                },
            }
            i += 1;
        }
        Ok(commands)
    }
}

/// The command lines that stop the container `container_id`, or the whole
/// compose project that it belongs to.
pub open spec fn stop_commands(container_id: Seq<char>, compose_project: Option<Seq<char>>) -> Seq<
    Seq<Seq<char>>,
> {
    match compose_project {
        Some(project) => seq![seq!["docker"@, "compose"@, "-p"@, project, "stop"@]],
        None => seq![seq!["docker"@, "stop"@, container_id]],
    }
}

/// The command lines that stop and remove the container `container_id`, or
/// the whole compose project that it belongs to.
pub open spec fn down_commands(container_id: Seq<char>, compose_project: Option<Seq<char>>) -> Seq<
    Seq<Seq<char>>,
> {
    match compose_project {
        Some(project) => seq![seq!["docker"@, "compose"@, "-p"@, project, "down"@]],
        None => seq![
            seq!["docker"@, "stop"@, container_id],
            seq!["docker"@, "rm"@, container_id],
        ],
    }
}

/// The texts of a list of command lines.
pub open spec fn command_texts(commands: Seq<Vec<String>>) -> Seq<Seq<Seq<char>>> {
    Seq::new(commands.len(), |i: int| texts(commands[i]@))
}

/// Builds `docker compose -p <project> <action>`.
fn compose_project_args(project: &str, action: &str) -> (args: Vec<String>)
    ensures
        texts(args@) == seq!["docker"@, "compose"@, "-p"@, project@, action@],
{
    let mut args: Vec<String> = Vec::new();
    args.push("docker".to_owned());
    args.push("compose".to_owned());
    args.push("-p".to_owned());
    args.push(project.to_owned());
    args.push(action.to_owned());
    args
}

/// Builds `docker <action> <container>`.
fn docker_container_args(action: &str, container_id: &str) -> (args: Vec<String>)
    ensures
        texts(args@) == seq!["docker"@, action@, container_id@],
{
    let mut args: Vec<String> = Vec::new();
    args.push("docker".to_owned());
    args.push(action.to_owned());
    args.push(container_id.to_owned());
    args
}

impl DevContainer {
    /// The command lines that stop the container, given the compose project
    /// that its labels name, if any. `None` if the container has not been
    /// inspected. What was known of the container is forgotten.
    pub fn stop(&mut self, compose_project: Option<String>) -> (commands: Option<Vec<Vec<String>>>)
        ensures
            match commands {
                Some(c) => old(self).container_id() is Some && command_texts(c@) == stop_commands(
                    old(self).container_id()->0,
                    match compose_project {
                        Some(p) => Some(p@),
                        None => None,
                    },
                ),
                None => old(self).container_id() is None,
            },
            final(self).up_output() is None,
            final(self).host() == old(self).host(),
            final(self).workspace_folder() == old(self).workspace_folder(),
            final(self).config_path() == old(self).config_path(),
            forall|mode: RootMode|
                final(self).config_override(mode) == old(self).config_override(mode),
    {
        let mut commands: Vec<Vec<String>> = Vec::new();
        match &self.cached_up_output {
            None => {
                return None;
            },
            Some(up) => {
                match &compose_project {
                    Some(project) => {
                        commands.push(compose_project_args(project.as_str(), "stop"));
                    },
                    None => {
                        commands.push(docker_container_args("stop", up.container_id.as_str()));
                    },
                }
            },
        }
        self.cached_up_output = None;
        Some(commands)
    }

    /// The command lines that stop and remove the container, given the
    /// compose project that its labels name, if any. `None` if the container
    /// has not been inspected. What was known of the container is forgotten.
    pub fn down(&mut self, compose_project: Option<String>) -> (commands: Option<Vec<Vec<String>>>)
        ensures
            match commands {
                Some(c) => old(self).container_id() is Some && command_texts(c@) == down_commands(
                    old(self).container_id()->0,
                    match compose_project {
                        Some(p) => Some(p@),
                        None => None,
                    },
                ),
                None => old(self).container_id() is None,
            },
            final(self).up_output() is None,
            final(self).host() == old(self).host(),
            final(self).workspace_folder() == old(self).workspace_folder(),
            final(self).config_path() == old(self).config_path(),
            forall|mode: RootMode|
                final(self).config_override(mode) == old(self).config_override(mode),
    {
        let mut commands: Vec<Vec<String>> = Vec::new();
        match &self.cached_up_output {
            None => {
                return None;
            },
            Some(up) => {
                match &compose_project {
                    Some(project) => {
                        commands.push(compose_project_args(project.as_str(), "down"));
                    },
                    None => {
                        commands.push(docker_container_args("stop", up.container_id.as_str()));
                        commands.push(docker_container_args("rm", up.container_id.as_str()));
                    },
                }
            },
        }
        self.cached_up_output = None;
        Some(commands)
    }

    /// Looks for a free host port in the random range, asking
    /// `is_host_port_available` about each candidate.
    pub fn find_available_host_port<F: Fn(u16) -> bool>(
        &self,
        is_host_port_available: &F,
    ) -> (found: Result<u16, PortError>)
        requires
            forall|p: u16| #[trigger] call_requires(is_host_port_available, (p,)),
        ensures
            searched(is_host_port_available, found),
            match found {
                Ok(port) => RANDOM_PORT_MIN <= port < RANDOM_PORT_END && call_ensures(
                    is_host_port_available,
                    (port,),
                    true,
                ),
                Err(e) => e == PortError::ExhaustedAttempts && exists|port: u16|
                    RANDOM_PORT_MIN <= port < RANDOM_PORT_END && #[trigger] call_ensures(
                        is_host_port_available,
                        (port,),
                        false,
                    ),
            },
    {
        find_random_available_port(is_host_port_available)
    }
}

/// The command line that asks the dev container tool for its version, to
/// see whether it is installed.
pub fn cli_version_args(host: HostOs) -> (args: Vec<String>)
    ensures
        texts(args@) == seq![devcontainer_program(host), "--version"@],
{
    let mut args: Vec<String> = Vec::new();
    match host {
        HostOs::Windows => args.push("devcontainer.cmd".to_owned()),
        _ => args.push("devcontainer".to_owned()),
    }
    args.push("--version".to_owned());
    args
}

/// The command line that prints `format` of the container `container_id`.
pub open spec fn inspect_command(format: Seq<char>, container_id: Seq<char>) -> Seq<Seq<char>> {
    seq!["docker"@, "inspect"@, "--format"@, format, container_id]
}

/// Builds the command line that prints `format` of `container_id`.
fn inspect_args(format: &str, container_id: &str) -> (args: Vec<String>)
    ensures
        texts(args@) == inspect_command(format@, container_id@),
{
    let mut args: Vec<String> = Vec::new();
    args.push("docker".to_owned());
    args.push("inspect".to_owned());
    args.push("--format".to_owned());
    args.push(format.to_owned());
    args.push(container_id.to_owned());
    args
}

impl DevContainer {
    /// The command line that prints, as JSON, the networks that the
    /// container is attached to.
    pub fn network_inspect_args(&self) -> (args: Result<Vec<String>, RelayError>)
        ensures
            match args {
                Ok(a) => self.container_id() is Some && texts(a@) == inspect_command(
                    "{{ json .NetworkSettings.Networks }}"@,
                    self.container_id()->0,
                ),
                Err(e) => self.container_id() is None && e == RelayError::SessionUnavailable,
            },
    {
        match &self.cached_up_output {
            Some(up) => Ok(
                inspect_args("{{ json .NetworkSettings.Networks }}", up.container_id.as_str()),
            ),
            None => Err(RelayError::SessionUnavailable),
        }
    }

    /// The command line that prints, as JSON, the labels of the container.
    pub fn labels_inspect_args(&self) -> (args: Result<Vec<String>, RelayError>)
        ensures
            match args {
                Ok(a) => self.container_id() is Some && texts(a@) == inspect_command(
                    "{{json .Config.Labels}}"@,
                    self.container_id()->0,
                ),
                Err(e) => self.container_id() is None && e == RelayError::SessionUnavailable,
            },
    {
        match &self.cached_up_output {
            Some(up) => Ok(inspect_args("{{json .Config.Labels}}", up.container_id.as_str())),
            None => Err(RelayError::SessionUnavailable),
        }
    }

    /// The command line that opens the shell which stays open inside the
    /// container.
    pub fn shell_args(&self, root_mode: RootMode) -> (args: Vec<String>)
        ensures
            texts(args@) == self.args_for(root_mode, "exec"@).push("bash"@),
    {
        let mut args = self.make_args(root_mode, "exec");
        args.push("bash".to_owned());
        args
    }

    /// The command line, to be run inside the container, that writes what it
    /// reads to the file `dst_container`, whose directory it makes first.
    pub fn copy_file_host_to_container(&self, dst_container: &str) -> (args: Vec<String>)
        ensures
            texts(args@) == seq![
                "sh"@,
                "-c"@,
                "mkdir -p $(dirname "@ + dst_container@ + ") && cat > "@ + dst_container@,
            ],
    {
        let mut script = "mkdir -p $(dirname ".to_owned();
        script.append(dst_container);
        script.append(") && cat > ");
        script.append(dst_container);
        let mut args: Vec<String> = Vec::new();
        args.push("sh".to_owned());
        args.push("-c".to_owned());
        args.push(script);
        args
    }

    /// What a command that ran in the container's shell has printed, as the
    /// value where it succeeded and as the error where it failed. `answer`
    /// is what the shell printed up to its prompt, or the reason why the
    /// shell could not be talked to. The output of a success is what the
    /// command wrote; the output of a failure is the message that tells of
    /// it.
    pub fn exec_capturing(&self, answer: Result<String, String>) -> (output: Result<
        ExecOutput,
        ExecOutput,
    >)
        ensures
            match answer {
                Ok(printed) => match command_result(printed@) {
                    Ok(stdout) => output is Ok && output->Ok_0.stdout@ == stdout
                        && output->Ok_0.stderr@.len() == 0,
                    Err((code, text)) => output is Err && output->Err_0.stdout@.len() == 0
                        && output->Err_0.stderr@ == failure_text(code, text),
                },
                Err(reason) => output is Err && output->Err_0.stdout@.len() == 0
                    && output->Err_0.stderr == reason,
            },
    {
        match answer {
            Ok(printed) => match parse_command_output(printed.as_str()) {
                Ok(stdout) => Ok(ExecOutput { stdout, stderr: String::new() }),
                Err(failure) => Err(
                    ExecOutput { stdout: String::new(), stderr: failure_message(&failure) },
                ),
            },
            Err(reason) => Err(ExecOutput { stdout: String::new(), stderr: reason }),
        }
    }
}

impl DevContainer {
    /// Whether the dev container tool is installed, from the outcome of
    /// asking it for its version.
    pub fn is_cli_installed(version: &Result<(), ExecError>) -> (installed: bool)
        ensures
            installed == version is Ok,
    {
        version.is_ok()
    }

    /// The output of a command that ran in the container's shell, read off
    /// what the shell printed up to its prompt; a command that ended with an
    /// exit code other than zero has failed.
    pub fn exec_capturing_stdout(&self, answer: &str) -> (result: Result<String, CommandFailure>)
        ensures
            match result {
                Ok(text) => command_result(answer@) == Ok::<Seq<char>, (int, Seq<char>)>(text@),
                Err(failure) => command_result(answer@) == Err::<Seq<char>, (int, Seq<char>)>(
                    (failure.exit_code as int, failure.output@),
                ),
            },
    {
        parse_command_output(answer)
    }

    /// The result of a command that ran in the container's shell, read off
    /// what the shell printed up to its prompt.
    pub fn exec(&self, answer: &str) -> (result: Result<(), CommandFailure>)
        ensures
            match result {
                Ok(_) => command_result(answer@) is Ok,
                Err(failure) => command_result(answer@) == Err::<Seq<char>, (int, Seq<char>)>(
                    (failure.exit_code as int, failure.output@),
                ),
            },
    {
        match parse_command_output(answer) {
            Ok(_) => Ok(()),
            Err(failure) => Err(failure),
        }
    }

    /// The result of a command that ran in the container's shell and was
    /// fed on its standard input, read off what the shell printed up to its
    /// prompt.
    pub fn exec_with_bytes_stdin(&self, answer: &str) -> (result: Result<(), CommandFailure>)
        ensures
            match result {
                Ok(_) => command_result(answer@) is Ok,
                Err(failure) => command_result(answer@) == Err::<Seq<char>, (int, Seq<char>)>(
                    (failure.exit_code as int, failure.output@),
                ),
            },
    {
        self.exec(answer)
    }
}

} // verus!
