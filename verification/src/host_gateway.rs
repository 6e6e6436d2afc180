//! Making the name `host.docker.internal` known inside the container, where
//! the container runtime does not do so itself.

use crate::text::{
    chars_of, contains_pattern, find, lines, split_lines, split_words, string_of, texts, trim,
    trimmed, views, words,
};
use vstd::prelude::*;

verus! {

/// The address that one line of a hosts file gives for `host.lima.internal`:
/// the first word of a line whose second word is that name.
pub open spec fn lima_address_of_line(line: Seq<char>) -> Option<Seq<char>> {
    let parts = words(line);
    if parts.len() >= 2 && parts[1] == "host.lima.internal"@ {
        Some(parts[0])
    } else {
        None
    }
}

/// The address that the first of `lines[from..]` to name `host.lima.internal`
/// gives for it.
pub open spec fn lima_address_from(lines: Seq<Seq<char>>, from: int) -> Option<Seq<char>>
    decreases lines.len() - from,
{
    if from < 0 || from >= lines.len() {
        None
    } else {
        match lima_address_of_line(lines[from]) {
            Some(address) => Some(address),
            None => lima_address_from(lines, from + 1),
        }
    }
}

/// Reads the address of `host.lima.internal` off a hosts file.
pub fn lima_host_address(hosts: &str) -> (address: Option<String>)
    ensures
        match address {
            Some(a) => lima_address_from(lines(hosts@), 0) == Some(a@),
            None => lima_address_from(lines(hosts@), 0) is None,
        },
{
    let name = chars_of("host.lima.internal");
    let all = split_lines(&chars_of(hosts));
    let mut i: usize = 0;
    while i < all.len()
        invariant
            i <= all.len(),
            name@ == "host.lima.internal"@,
            views(all@) == lines(hosts@),
            lima_address_from(lines(hosts@), 0) == lima_address_from(lines(hosts@), i as int),
        decreases all.len() - i,
    {
        let parts = split_words(&all[i]);
        if parts.len() >= 2 {
            if crate::text::same_text(&parts[1], &name) {
                return Some(string_of(&parts[0]));
            }
        }
        i += 1;
    }
    None
}

/// The end of the script that replaces the entry, after the address.
pub const REPLACE_SCRIPT_TAIL: &'static str = " host.docker.internal' >> /tmp/hosts.tmp && \
    cp /tmp/hosts.tmp /etc/hosts && rm /tmp/hosts.tmp";

/// The shell script that replaces the entry of `host.docker.internal` in the
/// container's hosts file by `address`.
pub open spec fn replace_entry_script(address: Seq<char>) -> Seq<char> {
    "grep -v 'host.docker.internal' /etc/hosts > /tmp/hosts.tmp && echo '"@ + address
        + REPLACE_SCRIPT_TAIL@
}

/// The command line, to be run as root inside the container, that makes
/// `host.docker.internal` stand for `address`, whatever it stood for.
pub fn replace_host_entry_args(address: &str) -> (args: Vec<String>)
    ensures
        texts(args@) == seq!["sh"@, "-c"@, replace_entry_script(address@)],
{
    let mut script =
        "grep -v 'host.docker.internal' /etc/hosts > /tmp/hosts.tmp && echo '".to_owned();
    script.append(address);
    script.append(REPLACE_SCRIPT_TAIL);
    let mut args: Vec<String> = Vec::new();
    args.push("sh".to_owned());
    args.push("-c".to_owned());
    args.push(script);
    args
}

/// Whether a hosts file mentions `host.docker.internal`.
pub fn knows_docker_host(hosts: &str) -> (known: bool)
    ensures
        known == contains_pattern(hosts@, "host.docker.internal"@),
{
    let text = chars_of(hosts);
    let name = chars_of("host.docker.internal");
    find(&text, &name, 0).is_some()
}

/// The address of the host as the container sees it: what the routing table
/// gave for the default route, without white space around it, or the
/// address of the default bridge where the routing table could not be read.
pub fn gateway_address(default_route: &Option<String>) -> (address: String)
    ensures
        address@ == (match default_route {
            Some(route) => trimmed(route@),
            None => "172.17.0.1"@,
        }),
{
    match default_route {
        Some(route) => string_of(&trim(&chars_of(route.as_str()))),
        None => "172.17.0.1".to_owned(),
    }
}

/// The command line, to be run as root inside the container, that adds an
/// entry for `host.docker.internal` to the hosts file.
pub fn append_host_entry_args(address: &str) -> (args: Vec<String>)
    ensures
        texts(args@) == seq![
            "sh"@,
            "-c"@,
            "echo '"@ + address@ + " host.docker.internal' | tee -a /etc/hosts"@,
        ],
{
    let mut script = "echo '".to_owned();
    script.append(address);
    script.append(" host.docker.internal' | tee -a /etc/hosts");
    let mut args: Vec<String> = Vec::new();
    args.push("sh".to_owned());
    args.push("-c".to_owned());
    args.push(script);
    args
}

} // verus!
