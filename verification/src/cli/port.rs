//! The `port` command: adding, removing and listing forwarded ports.

use crate::cli::{PortAddArgs, PortRmArgs};
use crate::devcontainer::ForwardedPort;
use crate::text::{chars_of, one_char, split, split_on, string_of, texts, views};
use vstd::prelude::*;

verus! {

/// Why a `port` command cannot be carried out.
#[derive(Debug, Clone, Copy, PartialEq, Eq, Structural)]
pub enum PortCommandError {
    /// The port descriptor holds more than one colon.
    InvalidDescriptor,
    /// Neither a port descriptor nor `--all` was given.
    MissingDescriptor,
}

/// The host port and the container port that a descriptor names: both the
/// same for a descriptor without a colon, the two sides of the colon where
/// there is one.
pub open spec fn descriptor_ports(descriptor: Seq<char>) -> Option<(Seq<char>, Seq<char>)> {
    let parts = split(descriptor, seq![':']);
    if parts.len() == 1 {
        Some((parts[0], parts[0]))
    } else if parts.len() == 2 {
        Some((parts[0], parts[1]))
    } else {
        None
    }
}

/// The host port that a descriptor names.
pub open spec fn descriptor_host_port(descriptor: Seq<char>) -> Option<Seq<char>> {
    match descriptor_ports(descriptor) {
        Some((host, _)) => Some(host),
        None => None,
    }
}

/// Reads a port descriptor, `8080` or `8080:1234`.
pub fn parse_port_descriptor(port_descriptor: &str) -> (ports: Result<
    (String, String),
    PortCommandError,
>)
    ensures
        match ports {
            Ok((host, container)) => descriptor_ports(port_descriptor@) == Some(
                (host@, container@),
            ),
            Err(e) => descriptor_ports(port_descriptor@) is None && e
                == PortCommandError::InvalidDescriptor,
        },
{
    let text = chars_of(port_descriptor);
    let colon = one_char(':');
    let parts = split_on(&text, &colon);
    if parts.len() == 1 {
        Ok((string_of(&parts[0]), string_of(&parts[0])))
    } else if parts.len() == 2 {
        Ok((string_of(&parts[0]), string_of(&parts[1])))
    } else {
        Err(PortCommandError::InvalidDescriptor)
    }
}

/// The two ports of the relay that `port add` starts.
pub fn add_port(add_args: &PortAddArgs) -> (ports: Result<(String, String), PortCommandError>)
    ensures
        match ports {
            Ok((host, container)) => descriptor_ports(add_args.port_descriptor@) == Some(
                (host@, container@),
            ),
            Err(e) => descriptor_ports(add_args.port_descriptor@) is None && e
                == PortCommandError::InvalidDescriptor,
        },
{
    parse_port_descriptor(add_args.port_descriptor.as_str())
}

/// The line that tells of a relay that was started.
pub fn added_message(host_port: &str, container_port: &str) -> (line: String)
    ensures
        line@ == "Port forwarding started: "@ + host_port@ + ":"@ + container_port@,
{
    let mut line = "Port forwarding started: ".to_owned();
    line.append(host_port);
    line.append(":");
    line.append(container_port);
    line
}

/// What `port rm` removes.
#[derive(Debug, Clone, PartialEq, Eq)]
pub enum Removal {
    /// Every relay of the session.
    All,
    /// The relay of this host port.
    One(String),
}

/// Decides what `port rm` removes: every relay with `--all`, else the relay
/// of the descriptor's host port; without either there is nothing to remove.
pub fn remove_port(rm_args: &PortRmArgs) -> (removal: Result<Removal, PortCommandError>)
    ensures
        match removal {
            Ok(Removal::All) => rm_args.all,
            Ok(Removal::One(host)) => !rm_args.all && rm_args.port_descriptor is Some
                && descriptor_host_port(rm_args.port_descriptor->0@) == Some(host@),
            Err(e) => !rm_args.all && (match rm_args.port_descriptor {
                Some(d) => descriptor_ports(d@) is None && e == PortCommandError::InvalidDescriptor,
                None => e == PortCommandError::MissingDescriptor,
            }),
        },
{
    if rm_args.all {
        Ok(Removal::All)
    } else {
        match &rm_args.port_descriptor {
            Some(descriptor) => match parse_port_descriptor(descriptor.as_str()) {
                Ok((host, _)) => Ok(Removal::One(host)),
                Err(e) => Err(e),
            },
            None => Err(PortCommandError::MissingDescriptor),
        }
    }
}

/// Of the first `n` relays, the lines `host:container`.
pub open spec fn port_lines(ports: Seq<ForwardedPort>, n: int) -> Seq<Seq<char>>
    decreases n,
{
    if n <= 0 {
        Seq::empty()
    } else {
        port_lines(ports, n - 1).push(ports[n - 1].host_port@ + ":"@ + ports[n - 1].container_port@)
    }
}

/// What `port ls` prints for the listed relays.
pub open spec fn listing_lines(ports: Seq<ForwardedPort>) -> Seq<Seq<char>> {
    if ports.len() == 0 {
        seq!["No port forwards active"@]
    } else {
        seq!["Active port forwards:"@, "HOST:CONTAINER"@] + port_lines(ports, ports.len() as int)
    }
}

/// The lines that `port ls` prints: a heading and one line for each relay,
/// or a single line if there is none.
pub fn list_ports(ports: &Vec<ForwardedPort>) -> (lines: Vec<String>)
    ensures
        texts(lines@) == listing_lines(ports@),
{
    let mut lines: Vec<String> = Vec::new();
    if ports.len() == 0 {
        lines.push("No port forwards active".to_owned());
        return lines;
    }
    lines.push("Active port forwards:".to_owned());
    lines.push("HOST:CONTAINER".to_owned());
    let ghost head = seq!["Active port forwards:"@, "HOST:CONTAINER"@];
    let mut i: usize = 0;
    while i < ports.len()
        invariant
            i <= ports.len(),
            head == seq!["Active port forwards:"@, "HOST:CONTAINER"@],
            texts(lines@) == head + port_lines(ports@, i as int),
        decreases ports.len() - i,
    {
        let ghost before = texts(lines@);
        let mut line = ports[i].host_port.clone();
        line.append(":");
        line.append(ports[i].container_port.as_str());
        lines.push(line);
        assert(texts(lines@) =~= before.push(line@));
        i += 1;
    }
    lines
}

} // verus!
