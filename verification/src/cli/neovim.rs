//! The editor session: a server inside the container, a relay to it, and a
//! client on the host that is started again, with growing pauses, while the
//! server lives.

use crate::devcontainer::{ExecError, HostOs};
use crate::port::{
    decimal, find_random_available_port, parse_port, port_of, port_text, searched, PortError,
};
use crate::text::{chars_of, contains_pattern, find, replace_all, replaced, string_of, texts};
use vstd::prelude::*;

verus! {

/// Stands in a client argument for the address of the server, `host:port`.
pub const SERVER_PLACEHOLDER: &'static str = "{server}";

/// Stands in a client argument for the identifier of the container.
pub const CONTAINER_ID_PLACEHOLDER: &'static str = "{container_id}";

/// Stands in a client argument for the workspace folder inside the container.
pub const WORKSPACE_FOLDER_PLACEHOLDER: &'static str = "{workspace_folder}";

/// A client that ends sooner than this many milliseconds has not connected.
pub const MIN_CLIENT_DURATION_MS: u64 = 500;

/// Seconds to wait before the first new attempt.
pub const INITIAL_RETRY_INTERVAL: u64 = 1;

/// The longest pause between two attempts, in seconds.
pub const MAX_RETRY_INTERVAL: u64 = 10;

/// Why one run of the client counts as failed.
#[derive(Debug, Clone, Copy, PartialEq, Eq, Structural)]
pub enum ClientError {
    /// The client ended before the minimum duration: the relay was not
    /// ready, whatever the client's exit status says.
    ExitedTooFast,
    /// The client ran long enough and ended with a failure.
    Failed,
    /// The state of the client process could not be read.
    StatusUnavailable,
}

/// Why the session ended without success.
#[derive(Debug, Clone, Copy, PartialEq, Eq, Structural)]
pub enum SessionError {
    /// The editor, run directly in the container, ended with a failure.
    DirectExecFailed,
    /// The server could not be started inside the container.
    ServerSpawnFailed,
    /// The relay to the server could not be started.
    RelayFailed,
    /// The client failed and the server is gone: no further attempt.
    ConnectionFailedServerDead,
    /// The session was interrupted from outside.
    Cancelled,
}

/// The result of a client that ran in the foreground until it ended.
pub open spec fn foreground_result(
    exited_ok: bool,
    elapsed_ms: u64,
    min_duration_ms: u64,
) -> Result<(), ClientError> {
    if elapsed_ms < min_duration_ms {
        Err(ClientError::ExitedTooFast)
    } else if exited_ok {
        Ok(())
    } else {
        Err(ClientError::Failed)
    }
}

/// Judges a client that ran in the foreground for `elapsed_ms` milliseconds
/// and ended with success or not. One that ended before `min_duration_ms`
/// has failed, whatever its exit status.
pub fn run_foreground_neovim_client(
    exited_ok: bool,
    elapsed_ms: u64,
    min_duration_ms: u64,
) -> (result: Result<(), ClientError>)
    ensures
        result == foreground_result(exited_ok, elapsed_ms, min_duration_ms),
{
    if elapsed_ms < min_duration_ms {
        Err(ClientError::ExitedTooFast)
    } else if exited_ok {
        Ok(())
    } else {
        Err(ClientError::Failed)
    }
}

/// Judges a client that was started in the background, from a look at its
/// process after the minimum duration: `Some(true)` if it has ended,
/// `Some(false)` if it still runs, `None` if that could not be told. Only a
/// client that still runs has succeeded.
pub fn run_background_neovim_client(exited: Option<bool>) -> (result: Result<(), ClientError>)
    ensures
        result == checked_result(exited),
{
    match exited {
        Some(true) => Err(ClientError::ExitedTooFast),
        Some(false) => Ok(()),
        None => Err(ClientError::StatusUnavailable),
    }
}

/// Whether the server counts as finished, from a look at its process:
/// `Ok(Some(code))` if it has ended, `Ok(None)` if it still runs. A process
/// whose state cannot be read counts as finished.
pub fn is_server_finished(status: &Result<Option<i32>, ExecError>) -> (finished: bool)
    ensures
        finished == !(status matches Ok(None)),
{
    match status {
        Ok(None) => false,
        _ => true,
    }
}

/// The pause that follows a pause of `interval` seconds: twice as long, and
/// at most `MAX_RETRY_INTERVAL`.
pub open spec fn next_interval(interval: nat) -> nat {
    if 2 * interval < MAX_RETRY_INTERVAL {
        2 * interval
    } else {
        MAX_RETRY_INTERVAL as nat
    }
}

/// The pause before the attempt that follows `failures` failed attempts,
/// `failures` being at least 1.
pub open spec fn backoff(failures: nat) -> nat
    decreases failures,
{
    if failures <= 1 {
        INITIAL_RETRY_INTERVAL as nat
    } else {
        next_interval(backoff((failures - 1) as nat))
    }
}

/// Computes the pause that follows a pause of `interval` seconds.
pub fn next_retry_interval(interval: u64) -> (next: u64)
    ensures
        next == next_interval(interval as nat),
{
    if interval < MAX_RETRY_INTERVAL / 2 {
        interval * 2
    } else {
        MAX_RETRY_INTERVAL
    }
}

/// The pauses between attempts never get shorter and never exceed the
/// maximum: they are 1, 2, 4, 8 and from then on 10 seconds.
pub proof fn lemma_backoff(failures: nat)
    requires
        failures >= 1,
    ensures
        backoff(failures) <= backoff(failures + 1),
        1 <= backoff(failures) <= MAX_RETRY_INTERVAL,
        backoff(1) == 1,
        backoff(2) == 2,
        backoff(3) == 4,
        backoff(4) == 8,
        failures >= 5 ==> backoff(failures) == 10,
    decreases failures,
{
    reveal_with_fuel(backoff, 5);
    if failures > 1 {
        lemma_backoff((failures - 1) as nat);
    }
}

/// The command line that runs the editor directly in the container.
pub open spec fn direct_command() -> Seq<Seq<char>> {
    seq!["/usr/bin/env"@, "DIRECT_NVIM=1"@, "TERM=screen-256color"@, "nvim"@]
}

/// Builds the command line that runs the editor directly in the container.
pub fn run_neovim_directly() -> (args: Vec<String>)
    ensures
        texts(args@) == direct_command(),
{
    let mut args: Vec<String> = Vec::new();
    args.push("/usr/bin/env".to_owned());
    args.push("DIRECT_NVIM=1".to_owned());
    args.push("TERM=screen-256color".to_owned());
    args.push("nvim".to_owned());
    args
}

/// The result of the editor that ran directly in the container.
pub fn direct_exec_result(outcome: &Result<(), ExecError>) -> (result: Result<(), SessionError>)
    ensures
        result == (match outcome {
            Ok(_) => Ok(()),
            Err(_) => Err(SessionError::DirectExecFailed),
        }),
{
    match outcome {
        Ok(_) => Ok(()),
        Err(_) => Err(SessionError::DirectExecFailed),
    }
}

/// The variable that tells the server which kind of host the client is on.
/// A Linux system whose kernel description holds `Microsoft` runs under
/// Windows.
pub open spec fn host_marker(host: HostOs, kernel: Option<Seq<char>>) -> Seq<char> {
    match host {
        HostOs::MacOs => "DOCKIM_ON_MACOS=1"@,
        HostOs::Windows => "DOCKIM_ON_WIN32=1"@,
        HostOs::Linux => match kernel {
            Some(text) => if contains_pattern(text, "Microsoft"@) {
                "DOCKIM_ON_WIN32=1"@
            } else {
                "DOCKIM_ON_LINUX=1"@
            },
            None => "DOCKIM_ON_LINUX=1"@,
        },
    }
}

/// The command line, to be run inside the container, that starts the server
/// without a user interface, listening on `container_port` on all addresses.
pub open spec fn server_command(host: HostOs, kernel: Option<Seq<char>>, container_port: Seq<char>)
    -> Seq<Seq<char>> {
    seq![
        "/usr/bin/env"@,
        host_marker(host, kernel),
        "nvim"@,
        "--headless"@,
        "--listen"@,
        "0.0.0.0:"@ + container_port,
    ]
}

/// Builds the command line that starts the server. `kernel` is what
/// `uname -a` printed on the host, where that could be run.
pub fn server_args(
    host: HostOs,
    kernel: &Option<String>,
    container_port: &str,
) -> (args: Vec<String>)
    ensures
        texts(args@) == server_command(
            host,
            match kernel {
                Some(text) => Some(text@),
                None => None,
            },
            container_port@,
        ),
{
    let marker = match host {
        HostOs::MacOs => "DOCKIM_ON_MACOS=1".to_owned(),
        HostOs::Windows => "DOCKIM_ON_WIN32=1".to_owned(),
        HostOs::Linux => match kernel {
            Some(text) => {
                let haystack = chars_of(text.as_str());
                let needle = chars_of("Microsoft");
                if find(&haystack, &needle, 0).is_some() {
                    "DOCKIM_ON_WIN32=1".to_owned()
                } else {
                    "DOCKIM_ON_LINUX=1".to_owned()
                }
            },
            None => "DOCKIM_ON_LINUX=1".to_owned(),
        },
    };
    let mut listen = "0.0.0.0:".to_owned();
    listen.append(container_port);
    let mut args: Vec<String> = Vec::new();
    args.push("/usr/bin/env".to_owned());
    args.push(marker);
    args.push("nvim".to_owned());
    args.push("--headless".to_owned());
    args.push("--listen".to_owned());
    args.push(listen);
    args
}

/// The two ends of the relay to the server.
#[derive(Debug, Clone, PartialEq, Eq)]
pub struct PortSelection {
    pub host_port: String,
    pub container_port: String,
    /// The host port as a number, where it was chosen here and not given.
    pub auto_host_port: Option<u16>,
}

/// Settles the two ports of the session. A given host port is used as it
/// stands, with the given container port or 54321. Without a host port a
/// free one is searched for with `probe`, and the container port is 54321.
pub fn select_ports<F: Fn(u16) -> bool>(
    host_port: &Option<String>,
    container_port: &Option<String>,
    probe: &F,
) -> (selection: Result<PortSelection, PortError>)
    requires
        forall|p: u16| #[trigger] call_requires(probe, (p,)),
    ensures
        match selection {
            Ok(s) => match host_port {
                Some(given) => s.host_port@ == given@ && s.auto_host_port is None
                    && s.container_port@ == (match container_port {
                    Some(port) => port@,
                    None => "54321"@,
                }),
                None => s.container_port@ == "54321"@ && s.auto_host_port is Some && s.host_port@
                    == decimal(s.auto_host_port->0 as nat) && searched(
                    probe,
                    Ok(s.auto_host_port->0),
                ),
            },
            Err(e) => host_port is None && searched(probe, Err(e)),
        },
{
    match host_port {
        Some(given) => {
            let container = match container_port {
                Some(port) => port.clone(),
                None => "54321".to_owned(),
            };
            Ok(
                PortSelection {
                    host_port: given.clone(),
                    container_port: container,
                    auto_host_port: None,
                },
            )
        },
        None => {
            match find_random_available_port(probe) {
                Ok(port) => Ok(
                    PortSelection {
                        host_port: port_text(port),
                        container_port: "54321".to_owned(),
                        auto_host_port: Some(port),
                    },
                ),
                Err(e) => Err(e),
            }
        },
    }
}

/// The ports that automatic forwarding has to leave alone during the
/// session: the container port of the session's own relay, where it is a
/// number.
pub fn excluded_ports(selection: &PortSelection) -> (ports: Vec<u16>)
    ensures
        ports@ == (match port_of(selection.container_port@) {
            Some(port) => seq![port],
            None => Seq::<u16>::empty(),
        }),
{
    let mut ports: Vec<u16> = Vec::new();
    match parse_port(selection.container_port.as_str()) {
        Some(port) => {
            ports.push(port);
        },
        None => {},
    }
    ports
}

/// The address of the server as the client sees it.
pub fn server_address(host_port: &str) -> (address: String)
    ensures
        address@ == "localhost:"@ + host_port@,
{
    let mut address = "localhost:".to_owned();
    address.append(host_port);
    address
}

/// One client argument with the three placeholders replaced, in this order:
/// the server address, the container identifier, the workspace folder.
pub open spec fn substituted(
    arg: Seq<char>,
    server: Seq<char>,
    container_id: Seq<char>,
    workspace_folder: Seq<char>,
) -> Seq<char> {
    let with_server = replaced(arg, SERVER_PLACEHOLDER@, server);
    let with_container = replaced(with_server, CONTAINER_ID_PLACEHOLDER@, container_id);
    replaced(with_container, WORKSPACE_FOLDER_PLACEHOLDER@, workspace_folder)
}

/// Replaces the placeholders in every argument of the client.
pub fn client_args(
    args: &Vec<String>,
    server: &str,
    container_id: &str,
    workspace_folder: &str,
) -> (result: Vec<String>)
    ensures
        result.len() == args.len(),
        forall|i: int|
            0 <= i < args.len() ==> (#[trigger] result@[i])@ == substituted(
                args@[i]@,
                server@,
                container_id@,
                workspace_folder@,
            ),
{
    let server_mark = chars_of(SERVER_PLACEHOLDER);
    let id_mark = chars_of(CONTAINER_ID_PLACEHOLDER);
    let folder_mark = chars_of(WORKSPACE_FOLDER_PLACEHOLDER);
    let server_text = chars_of(server);
    let id_text = chars_of(container_id);
    let folder_text = chars_of(workspace_folder);
    let mut result: Vec<String> = Vec::new();
    let mut i: usize = 0;
    while i < args.len()
        invariant
            i <= args.len(),
            result.len() == i,
            server_mark@ == SERVER_PLACEHOLDER@,
            id_mark@ == CONTAINER_ID_PLACEHOLDER@,
            folder_mark@ == WORKSPACE_FOLDER_PLACEHOLDER@,
            server_text@ == server@,
            id_text@ == container_id@,
            folder_text@ == workspace_folder@,
            forall|j: int|
                0 <= j < i ==> (#[trigger] result@[j])@ == substituted(
                    args@[j]@,
                    server@,
                    container_id@,
                    workspace_folder@,
                ),
        decreases args.len() - i,
    {
        let arg = chars_of(args[i].as_str());
        let first = replace_all(&arg, &server_mark, &server_text);
        let second = replace_all(&first, &id_mark, &id_text);
        let third = replace_all(&second, &folder_mark, &folder_text);
        result.push(string_of(&third));
        i += 1;
    }
    result
}

/// What follows a failure of the client.
#[derive(Debug, Clone, Copy, PartialEq, Eq, Structural)]
pub enum RetryDecision {
    /// The server lives: wait `seconds`, then try again; the pause after
    /// the next failure is `next_interval`.
    Retry { seconds: u64, next_interval: u64 },
    /// The server is gone: give up.
    GiveUp { error: SessionError },
}

/// Decides what follows a failure of the client, given whether the server
/// has finished and the pause that is due.
pub fn handle_connection_failure(
    server_finished: bool,
    retry_interval: u64,
) -> (decision: RetryDecision)
    ensures
        decision == (if server_finished {
            RetryDecision::GiveUp { error: SessionError::ConnectionFailedServerDead }
        } else {
            RetryDecision::Retry {
                seconds: retry_interval,
                next_interval: next_interval(retry_interval as nat) as u64,
            }
        }),
{
    if server_finished {
        RetryDecision::GiveUp { error: SessionError::ConnectionFailedServerDead }
    } else {
        RetryDecision::Retry {
            seconds: retry_interval,
            next_interval: next_retry_interval(retry_interval),
        }
    }
}

/// Where a session stands.
#[derive(Debug, Clone, Copy, PartialEq, Eq, Structural)]
pub enum SessionPhase {
    /// The server is being started inside the container.
    ServerStarting,
    /// The server runs; the relay to it is being started.
    ServerRunning,
    /// The server runs, the relay stands, and the client has been started.
    ClientConnecting,
    /// The client has stayed up for the minimum duration and runs on.
    ClientAttached,
    /// The client has failed while the server lives; the pause before the
    /// next attempt is running.
    ClientDisconnected,
    /// The session is over and the server is being stopped.
    Cleanup,
    /// Nothing is left to do.
    Terminated,
}

/// What happened outside since the last step.
#[derive(Debug, Clone, Copy, PartialEq, Eq, Structural)]
pub enum SessionEvent {
    /// The server was started, or could not be.
    ServerSpawned { ok: bool },
    /// The relay was started, or could not be.
    RelayStarted { ok: bool },
    /// The client has ended, `elapsed_ms` milliseconds after its start and
    /// with success or not; `server_exited` tells whether the server was
    /// found finished right after.
    ClientExited { exited_ok: bool, elapsed_ms: u64, server_exited: bool },
    /// The client was looked at once the minimum duration was over:
    /// `exited` tells whether it had ended by then, if that could be told;
    /// `server_exited` tells whether the server was found finished.
    ClientChecked { exited: Option<bool>, server_exited: bool },
    /// The pause before the next attempt is over.
    BackoffElapsed,
    /// The server has been stopped.
    ServerStopped,
    /// The user interrupted the session.
    Interrupted,
}

/// What the caller has to do next.
#[derive(Debug, Clone, Copy, PartialEq, Eq)]
pub enum SessionAction {
    /// Start the server inside the container.
    SpawnServer,
    /// Start the relay to the server.
    StartRelay,
    /// Start the client.
    RunClient,
    /// Wait for the client to end, then report `ClientExited`.
    AwaitClient,
    /// Wait this many seconds, then report `BackoffElapsed`.
    Sleep { seconds: u64 },
    /// Kill the server and wait for its end; failures there are not
    /// reported.
    StopServer,
    /// Return this result; the session is over.
    Finish { result: Result<(), SessionError> },
    /// The event does not belong to the phase: do nothing.
    Ignore,
}

/// What becomes of the relay when the session is over.
#[derive(Debug, Clone, Copy, PartialEq, Eq, Structural)]
pub enum RelayDisposal {
    /// No relay was started.
    Nothing,
    /// The relay stays, for a client that runs on in the background.
    Release,
    /// The relay is stopped.
    Close,
}

/// One session with a server, a relay and a client.
#[derive(Debug, Clone, Copy, PartialEq, Eq)]
pub struct Session {
    pub phase: SessionPhase,
    /// Whether the client runs detached from the session.
    pub background: bool,
    /// The pause, in seconds, that follows the next failure of the client.
    pub retry_interval: u64,
    /// Whether the relay has been started.
    pub relay_started: bool,
    /// How the session ended, once it is in cleanup or terminated.
    pub outcome: Result<(), SessionError>,
}

/// The session `s` in the phase `phase`.
pub open spec fn in_phase(s: Session, phase: SessionPhase) -> Session {
    Session { phase, ..s }
}

/// The session `s` on its way out with `outcome`: the server is stopped
/// first.
pub open spec fn leaving(s: Session, outcome: Result<(), SessionError>) -> (
    Session,
    SessionAction,
) {
    (Session { phase: SessionPhase::Cleanup, outcome, ..s }, SessionAction::StopServer)
}

/// The session `s` after a run of the client with the result `judged`:
/// success ends the session; after a failure the session ends if the server
/// has exited, and pauses for another attempt if it lives.
pub open spec fn after_client(s: Session, judged: Result<(), ClientError>, server_exited: bool) -> (
    Session,
    SessionAction,
) {
    match judged {
        Ok(_) => leaving(s, Ok(())),
        Err(_) => if server_exited {
            leaving(s, Err(SessionError::ConnectionFailedServerDead))
        } else {
            (
                in_phase(s, SessionPhase::ClientDisconnected),
                SessionAction::Sleep { seconds: s.retry_interval },
            )
        },
    }
}

/// The result of a client that was looked at once the minimum duration was
/// over: it has succeeded if it still runs.
pub open spec fn checked_result(exited: Option<bool>) -> Result<(), ClientError> {
    match exited {
        Some(true) => Err(ClientError::ExitedTooFast),
        Some(false) => Ok(()),
        None => Err(ClientError::StatusUnavailable),
    }
}

/// What the caller of the session is told: an interruption is a regular end.
pub open spec fn reported(outcome: Result<(), SessionError>) -> Result<(), SessionError> {
    match outcome {
        Err(SessionError::Cancelled) => Ok(()),
        _ => outcome,
    }
}

/// The session that follows `s` on `event`, and what the caller has to do.
pub open spec fn next_session(s: Session, event: SessionEvent) -> (Session, SessionAction) {
    match (s.phase, event) {
        (SessionPhase::ServerStarting, SessionEvent::ServerSpawned { ok: true }) => (
            in_phase(s, SessionPhase::ServerRunning),
            SessionAction::StartRelay,
        ),
        (SessionPhase::ServerStarting, SessionEvent::ServerSpawned { ok: false }) => (
            Session {
                phase: SessionPhase::Terminated,
                outcome: Err(SessionError::ServerSpawnFailed),
                ..s
            },
            SessionAction::Finish { result: Err(SessionError::ServerSpawnFailed) },
        ),
        (SessionPhase::ServerStarting, SessionEvent::Interrupted) => (
            Session { phase: SessionPhase::Terminated, outcome: Err(SessionError::Cancelled), ..s },
            SessionAction::Finish { result: Ok(()) },
        ),
        (SessionPhase::ServerRunning, SessionEvent::RelayStarted { ok: true }) => (
            Session { phase: SessionPhase::ClientConnecting, relay_started: true, ..s },
            SessionAction::RunClient,
        ),
        (SessionPhase::ServerRunning, SessionEvent::RelayStarted { ok: false }) => leaving(
            s,
            Err(SessionError::RelayFailed),
        ),
        (
            SessionPhase::ClientConnecting,
            SessionEvent::ClientExited { exited_ok, elapsed_ms, server_exited },
        ) => after_client(
            s,
            foreground_result(exited_ok, elapsed_ms, MIN_CLIENT_DURATION_MS),
            server_exited,
        ),
        (
            SessionPhase::ClientAttached,
            SessionEvent::ClientExited { exited_ok, elapsed_ms, server_exited },
        ) => after_client(
            s,
            foreground_result(exited_ok, elapsed_ms, MIN_CLIENT_DURATION_MS),
            server_exited,
        ),
        (SessionPhase::ClientConnecting, SessionEvent::ClientChecked { exited, server_exited }) => {
            if checked_result(exited) is Ok && !s.background {
                (in_phase(s, SessionPhase::ClientAttached), SessionAction::AwaitClient)
            } else {
                after_client(s, checked_result(exited), server_exited)
            }
        },
        (SessionPhase::ClientDisconnected, SessionEvent::BackoffElapsed) => (
            Session {
                phase: SessionPhase::ClientConnecting,
                retry_interval: next_interval(s.retry_interval as nat) as u64,
                ..s
            },
            SessionAction::RunClient,
        ),
        (SessionPhase::ServerRunning, SessionEvent::Interrupted) => leaving(
            s,
            Err(SessionError::Cancelled),
        ),
        (SessionPhase::ClientConnecting, SessionEvent::Interrupted) => leaving(
            s,
            Err(SessionError::Cancelled),
        ),
        (SessionPhase::ClientAttached, SessionEvent::Interrupted) => leaving(
            s,
            Err(SessionError::Cancelled),
        ),
        (SessionPhase::ClientDisconnected, SessionEvent::Interrupted) => leaving(
            s,
            Err(SessionError::Cancelled),
        ),
        (SessionPhase::Cleanup, SessionEvent::ServerStopped) => (
            in_phase(s, SessionPhase::Terminated),
            SessionAction::Finish { result: reported(s.outcome) },
        ),
        _ => (s, SessionAction::Ignore),
    }
}

impl Session {
    /// A new session, and the first thing to do for it: start the server.
    pub fn start(background: bool) -> (begun: (Session, SessionAction))
        ensures
            begun.0 == (Session {
                phase: SessionPhase::ServerStarting,
                background,
                retry_interval: INITIAL_RETRY_INTERVAL,
                relay_started: false,
                outcome: Ok(()),
            }),
            begun.1 == SessionAction::SpawnServer,
    {
        (
            Session {
                phase: SessionPhase::ServerStarting,
                background,
                retry_interval: INITIAL_RETRY_INTERVAL,
                relay_started: false,
                outcome: Ok(()),
            },
            SessionAction::SpawnServer,
        )
    }

    /// Takes the session out with `outcome`.
    fn leave(&mut self, outcome: Result<(), SessionError>) -> (action: SessionAction)
        ensures
            (*final(self), action) == leaving(*old(self), outcome),
    {
        self.phase = SessionPhase::Cleanup;
        self.outcome = outcome;
        SessionAction::StopServer
    }

    /// Goes on after a run of the client with the result `judged`.
    fn client_done(&mut self, judged: Result<(), ClientError>, server_exited: bool) -> (action:
        SessionAction)
        ensures
            (*final(self), action) == after_client(*old(self), judged, server_exited),
    {
        match judged {
            Ok(_) => self.leave(Ok(())),
            Err(_) => match handle_connection_failure(server_exited, self.retry_interval) {
                RetryDecision::GiveUp { error } => self.leave(Err(error)),
                RetryDecision::Retry { seconds, next_interval: _ } => {
                    self.phase = SessionPhase::ClientDisconnected;
                    SessionAction::Sleep { seconds }
                },
            },
        }
    }

    /// Advances the session by one event and says what to do next.
    pub fn step(&mut self, event: SessionEvent) -> (action: SessionAction)
        ensures
            (*final(self), action) == next_session(*old(self), event),
    {
        match (self.phase, event) {
            (SessionPhase::ServerStarting, SessionEvent::ServerSpawned { ok }) => {
                if ok {
                    self.phase = SessionPhase::ServerRunning;
                    SessionAction::StartRelay
                } else {
                    self.phase = SessionPhase::Terminated;
                    self.outcome = Err(SessionError::ServerSpawnFailed);
                    SessionAction::Finish { result: Err(SessionError::ServerSpawnFailed) }
                }
            },
            (SessionPhase::ServerStarting, SessionEvent::Interrupted) => {
                self.phase = SessionPhase::Terminated;
                self.outcome = Err(SessionError::Cancelled);
                SessionAction::Finish { result: Ok(()) }
            },
            (SessionPhase::ServerRunning, SessionEvent::RelayStarted { ok }) => {
                if ok {
                    self.phase = SessionPhase::ClientConnecting;
                    self.relay_started = true;
                    SessionAction::RunClient
                } else {
                    self.leave(Err(SessionError::RelayFailed))
                }
            },
            (
                SessionPhase::ClientConnecting,
                SessionEvent::ClientExited { exited_ok, elapsed_ms, server_exited },
            ) => {
                let judged = run_foreground_neovim_client(
                    exited_ok,
                    elapsed_ms,
                    MIN_CLIENT_DURATION_MS,
                );
                self.client_done(judged, server_exited)
            },
            (
                SessionPhase::ClientAttached,
                SessionEvent::ClientExited { exited_ok, elapsed_ms, server_exited },
            ) => {
                let judged = run_foreground_neovim_client(
                    exited_ok,
                    elapsed_ms,
                    MIN_CLIENT_DURATION_MS,
                );
                self.client_done(judged, server_exited)
            },
            (
                SessionPhase::ClientConnecting,
                SessionEvent::ClientChecked { exited, server_exited },
            ) => {
                let judged = run_background_neovim_client(exited);
                if judged.is_ok() && !self.background {
                    self.phase = SessionPhase::ClientAttached;
                    SessionAction::AwaitClient
                } else {
                    self.client_done(judged, server_exited)
                }
            },
            (SessionPhase::ClientDisconnected, SessionEvent::BackoffElapsed) => {
                self.phase = SessionPhase::ClientConnecting;
                self.retry_interval = next_retry_interval(self.retry_interval);
                SessionAction::RunClient
            },
            (SessionPhase::ServerRunning, SessionEvent::Interrupted) => self.leave(
                Err(SessionError::Cancelled),
            ),
            (SessionPhase::ClientConnecting, SessionEvent::Interrupted) => self.leave(
                Err(SessionError::Cancelled),
            ),
            (SessionPhase::ClientAttached, SessionEvent::Interrupted) => self.leave(
                Err(SessionError::Cancelled),
            ),
            (SessionPhase::ClientDisconnected, SessionEvent::Interrupted) => self.leave(
                Err(SessionError::Cancelled),
            ),
            (SessionPhase::Cleanup, SessionEvent::ServerStopped) => {
                self.phase = SessionPhase::Terminated;
                let result = match self.outcome {
                    Err(SessionError::Cancelled) => Ok(()),
                    other => other,
                };
                SessionAction::Finish { result }
            },
            _ => SessionAction::Ignore,
        }
    }

    /// What becomes of the relay now that the session is over: it is kept
    /// for a client in the background, and stopped otherwise.
    pub fn relay_disposal(&self) -> (disposal: RelayDisposal)
        ensures
            disposal == (if !self.relay_started {
                RelayDisposal::Nothing
            } else if self.background {
                RelayDisposal::Release
            } else {
                RelayDisposal::Close
            }),
    {
        if !self.relay_started {
            RelayDisposal::Nothing
        } else if self.background {
            RelayDisposal::Release
        } else {
            RelayDisposal::Close
        }
    }
}

/// A client that ends before the minimum duration has failed, even with a
/// successful exit status; one that ran at least that long is judged by its
/// exit status.
pub proof fn lemma_too_fast_exit_is_failure(exited_ok: bool, elapsed_ms: u64, min_duration_ms: u64)
    ensures
        elapsed_ms < min_duration_ms ==> foreground_result(exited_ok, elapsed_ms, min_duration_ms)
            == Err::<(), ClientError>(ClientError::ExitedTooFast),
        elapsed_ms >= min_duration_ms ==> (foreground_result(
            exited_ok,
            elapsed_ms,
            min_duration_ms,
        ) is Ok <==> exited_ok),
{
}

/// The session never takes a client that ended too fast for a success:
/// whatever its exit status, an exit before the minimum duration leads to a
/// pause and another attempt while the server lives, and to the end of the
/// session with `ConnectionFailedServerDead` once the server has exited.
pub proof fn lemma_session_retries_too_fast_exit(s: Session, exited_ok: bool, elapsed_ms: u64)
    requires
        s.phase == SessionPhase::ClientConnecting || s.phase == SessionPhase::ClientAttached,
        elapsed_ms < MIN_CLIENT_DURATION_MS,
    ensures
        next_session(s, SessionEvent::ClientExited { exited_ok, elapsed_ms, server_exited: false })
            == (
            in_phase(s, SessionPhase::ClientDisconnected),
            SessionAction::Sleep { seconds: s.retry_interval },
        ),
        next_session(s, SessionEvent::ClientExited { exited_ok, elapsed_ms, server_exited: true })
            == leaving(s, Err(SessionError::ConnectionFailedServerDead)),
{
}

/// Once the server has exited, a failure of the client ends the session
/// with `ConnectionFailedServerDead`: the next action stops the server, and
/// neither a pause nor another run of the client follows.
pub proof fn lemma_server_death_short_circuit(s: Session, exited_ok: bool, elapsed_ms: u64)
    requires
        s.phase == SessionPhase::ClientConnecting || s.phase == SessionPhase::ClientAttached,
        foreground_result(exited_ok, elapsed_ms, MIN_CLIENT_DURATION_MS) is Err,
    ensures
        ({
            let (after, action) = next_session(
                s,
                SessionEvent::ClientExited { exited_ok, elapsed_ms, server_exited: true },
            );
            let (done, last) = next_session(after, SessionEvent::ServerStopped);
            &&& action == SessionAction::StopServer
            &&& after.phase == SessionPhase::Cleanup
            &&& after.outcome == Err::<(), SessionError>(SessionError::ConnectionFailedServerDead)
            &&& last == SessionAction::Finish {
                result: Err(SessionError::ConnectionFailedServerDead),
            }
            &&& done.phase == SessionPhase::Terminated
        }),
{
}

/// While the server lives, the pause after the `failures`-th failure of the
/// client is `backoff(failures)` seconds, and the session then runs the
/// client again with the next pause of the series.
pub proof fn lemma_session_backoff(s: Session, failures: nat, exited_ok: bool, elapsed_ms: u64)
    requires
        failures >= 1,
        s.phase == SessionPhase::ClientConnecting,
        s.retry_interval == backoff(failures),
        foreground_result(exited_ok, elapsed_ms, MIN_CLIENT_DURATION_MS) is Err,
    ensures
        ({
            let (waiting, pause) = next_session(
                s,
                SessionEvent::ClientExited { exited_ok, elapsed_ms, server_exited: false },
            );
            let (again, run) = next_session(waiting, SessionEvent::BackoffElapsed);
            &&& pause == SessionAction::Sleep { seconds: backoff(failures) as u64 }
            &&& run == SessionAction::RunClient
            &&& again.phase == SessionPhase::ClientConnecting
            &&& again.retry_interval == backoff(failures + 1)
        }),
{
    lemma_backoff(failures);
    lemma_backoff(failures + 1);
    reveal_with_fuel(backoff, 2);
}

/// A session whose server was started ends only after the server has been
/// stopped: the session is finished from the cleanup phase alone, on the
/// report that the server has stopped, and every way out of a phase in which
/// the server runs leads into the cleanup phase with the order to stop it.
pub proof fn lemma_cleanup_before_finish(s: Session, event: SessionEvent)
    ensures
        ({
            let (after, action) = next_session(s, event);
            &&& action is Finish ==> (s.phase == SessionPhase::ServerStarting || (s.phase
                == SessionPhase::Cleanup && event == SessionEvent::ServerStopped))
            &&& (s.phase == SessionPhase::ServerRunning || s.phase
                == SessionPhase::ClientConnecting || s.phase == SessionPhase::ClientAttached
                || s.phase == SessionPhase::ClientDisconnected) ==> after.phase
                != SessionPhase::Terminated
            &&& (s.phase != SessionPhase::Cleanup && after.phase == SessionPhase::Cleanup)
                ==> action == SessionAction::StopServer
            &&& s.phase == SessionPhase::Terminated ==> after == s && action
                == SessionAction::Ignore
        }),
{
}

/// Success is reported only where it was earned: the result of a finished
/// session is `Ok` only if the outcome on record is `Ok` or `Cancelled`, and
/// the outcome `Ok` is put on record only for a client that ended with
/// success after the minimum duration, or that was still running when it was
/// looked at after the minimum duration.
pub proof fn lemma_success_is_earned(s: Session, event: SessionEvent)
    ensures
        ({
            let (after, action) = next_session(s, event);
            &&& (s.phase == SessionPhase::Cleanup && action matches SessionAction::Finish {
                result: Ok(_),
            }) ==> (s.outcome is Ok || s.outcome == Err::<(), SessionError>(
                SessionError::Cancelled,
            ))
            &&& (after.phase == SessionPhase::Cleanup && s.phase != SessionPhase::Cleanup
                && after.outcome is Ok) ==> (match event {
                SessionEvent::ClientExited { exited_ok, elapsed_ms, server_exited } => exited_ok
                    && elapsed_ms >= MIN_CLIENT_DURATION_MS,
                SessionEvent::ClientChecked { exited, server_exited } => exited == Some(false),
                _ => false,
            })
        }),
{
}

} // verus!
