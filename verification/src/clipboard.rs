//! The clipboard server: a small HTTP service on the host through which the
//! editor in the container reads and writes the host's clipboard.

use crate::devcontainer::HostOs;
use crate::port::{decimal, push_decimal};
use crate::text::{
    chars_of, contains_pattern, find, lines, same_text, split_lines, split_words, string_of, texts,
    trim, trimmed, views, words,
};
use vstd::prelude::*;

verus! {

/// The four bytes that end the head of a request: CR LF CR LF.
pub open spec fn head_end_at(buffer: Seq<u8>, i: int) -> bool {
    0 <= i && i + 4 <= buffer.len() && buffer[i] == 13 && buffer[i + 1] == 10 && buffer[i + 2]
        == 13 && buffer[i + 3] == 10
}

/// The index of the first end of a head at or after `from`.
pub open spec fn head_end_from(buffer: Seq<u8>, from: int) -> Option<int>
    decreases buffer.len() - from,
{
    if from < 0 || from + 4 > buffer.len() {
        None
    } else if head_end_at(buffer, from) {
        Some(from)
    } else {
        head_end_from(buffer, from + 1)
    }
}

/// Where the body of a request starts: after the first CR LF CR LF, or at
/// the end of the buffer if there is none.
pub open spec fn body_offset(buffer: Seq<u8>) -> int {
    match head_end_from(buffer, 0) {
        Some(i) => i + 4,
        None => buffer.len() as int,
    }
}

/// Finds where the head of the request ends.
fn find_head_end(buffer: &Vec<u8>) -> (end: Option<usize>)
    ensures
        match end {
            Some(i) => head_end_from(buffer@, 0) == Some(i as int) && i + 4 <= buffer.len(),
            None => head_end_from(buffer@, 0) is None,
        },
{
    if buffer.len() < 4 {
        return None;
    }
    let last: usize = buffer.len() - 4;
    let mut i: usize = 0;
    loop
        invariant
            i <= last,
            last == buffer.len() - 4,
            head_end_from(buffer@, 0) == head_end_from(buffer@, i as int),
        decreases last - i,
    {
        if buffer[i] == 13 && buffer[i + 1] == 10 && buffer[i + 2] == 13 && buffer[i + 3] == 10 {
            return Some(i);
        }
        if i == last {
            return None;
        }
        i += 1;
    }
}

/// Whether the head of the request has been read in full.
pub fn is_request_complete(buffer: &Vec<u8>) -> (complete: bool)
    ensures
        complete == head_end_from(buffer@, 0) is Some,
{
    find_head_end(buffer).is_some()
}

/// Where the body of the request starts.
pub fn body_start(buffer: &Vec<u8>) -> (start: usize)
    ensures
        start == body_offset(buffer@),
        start <= buffer.len(),
{
    match find_head_end(buffer) {
        Some(i) => i + 4,
        None => buffer.len(),
    }
}

/// What the server does with a request.
#[derive(Debug, Clone, Copy, PartialEq, Eq, Structural)]
pub enum Route {
    /// The request is empty: it gets no answer.
    Ignore,
    /// The request line is malformed: `400 Bad Request`.
    BadRequest,
    /// Send the clipboard.
    Get,
    /// Set the clipboard to the body of the request.
    Post,
    /// Any other method: `405 Method Not Allowed`.
    MethodNotAllowed,
}

/// What the server does with a request, by the first line of its text.
pub open spec fn route_of(request: Seq<char>) -> Route {
    if lines(request).len() == 0 {
        Route::Ignore
    } else {
        let parts = words(lines(request)[0]);
        if parts.len() < 2 {
            Route::BadRequest
        } else if parts[0] == "GET"@ {
            Route::Get
        } else if parts[0] == "POST"@ {
            Route::Post
        } else {
            Route::MethodNotAllowed
        }
    }
}

/// Decides what to do with a request.
pub fn handle_client(request: &str) -> (route: Route)
    ensures
        route == route_of(request@),
{
    let all = split_lines(&chars_of(request));
    if all.len() == 0 {
        return Route::Ignore;
    }
    let parts = split_words(&all[0]);
    if parts.len() < 2 {
        return Route::BadRequest;
    }
    if same_text(&parts[0], &chars_of("GET")) {
        Route::Get
    } else if same_text(&parts[0], &chars_of("POST")) {
        Route::Post
    } else {
        Route::MethodNotAllowed
    }
}

/// The head of the answer that carries the clipboard, `content_length`
/// bytes long.
pub fn handle_get(content_length: usize) -> (head: String)
    ensures
        head@ == "HTTP/1.1 200 OK\r\nContent-Type: text/plain; charset=utf-8\r\nContent-Length: "@
            + decimal(content_length as nat) + "\r\n\r\n"@,
{
    let mut text = chars_of(
        "HTTP/1.1 200 OK\r\nContent-Type: text/plain; charset=utf-8\r\nContent-Length: ",
    );
    push_decimal(&mut text, content_length as u64);
    let mut head = string_of(&text);
    head.append("\r\n\r\n");
    head
}

/// The answer to a request that has set the clipboard.
pub fn handle_post() -> (answer: String)
    ensures
        answer@ == "HTTP/1.1 200 OK\r\nContent-Length: 0\r\n\r\n"@,
{
    "HTTP/1.1 200 OK\r\nContent-Length: 0\r\n\r\n".to_owned()
}

/// The answer that reports the failure `status`.
pub fn send_error_response(status: &str) -> (answer: String)
    ensures
        answer@ == "HTTP/1.1 "@ + status@ + "\r\nContent-Length: 0\r\n\r\n"@,
{
    let mut answer = "HTTP/1.1 ".to_owned();
    answer.append(status);
    answer.append("\r\nContent-Length: 0\r\n\r\n");
    answer
}

/// Whether a client at `address` may use the server.
pub fn is_allowed(allowed_addresses: &Vec<String>, address: &str) -> (allowed: bool)
    ensures
        allowed == texts(allowed_addresses@).contains(address@),
{
    let wanted = chars_of(address);
    let mut i: usize = 0;
    while i < allowed_addresses.len()
        invariant
            i <= allowed_addresses.len(),
            wanted@ == address@,
            forall|j: int| 0 <= j < i ==> allowed_addresses@[j]@ != address@,
        decreases allowed_addresses.len() - i,
    {
        if same_text(&chars_of(allowed_addresses[i].as_str()), &wanted) {
            assert(texts(allowed_addresses@)[i as int] == address@);
            return true;
        }
        i += 1;
    }
    false
}

/// Of the first `n` lines, those that are not blank, without white space
/// around them.
pub open spec fn listed_addresses(lines: Seq<Seq<char>>, n: int) -> Seq<Seq<char>>
    decreases n,
{
    if n <= 0 {
        Seq::empty()
    } else {
        let before = listed_addresses(lines, n - 1);
        let address = trimmed(lines[n - 1]);
        if address.len() == 0 {
            before
        } else {
            before.push(address)
        }
    }
}

/// Of the first `n` words, those that are not the address of the default
/// bridge's gateway.
pub open spec fn foreign_addresses(words: Seq<Seq<char>>, n: int) -> Seq<Seq<char>>
    decreases n,
{
    if n <= 0 {
        Seq::empty()
    } else {
        let before = foreign_addresses(words, n - 1);
        if words[n - 1] == "172.17.0.1"@ {
            before
        } else {
            before.push(words[n - 1])
        }
    }
}

/// The addresses that may use the server: the host itself, the containers
/// whose addresses `container_addresses` lists one per line, and the
/// addresses of `wsl_addresses`, separated by white space, but for the
/// gateway of the default bridge.
pub open spec fn allowed_addresses(
    container_addresses: Option<Seq<char>>,
    wsl_addresses: Option<Seq<char>>,
) -> Seq<Seq<char>> {
    seq!["127.0.0.1"@, "::1"@] + (match container_addresses {
        Some(text) => listed_addresses(lines(text), lines(text).len() as int),
        None => Seq::empty(),
    }) + (match wsl_addresses {
        Some(text) => foreign_addresses(words(text), words(text).len() as int),
        None => Seq::empty(),
    })
}

/// Builds the list of the addresses that may use the server.
pub fn populate_allowed_addresses(
    container_addresses: &Option<String>,
    wsl_addresses: &Option<String>,
) -> (allowed: Vec<String>)
    ensures
        texts(allowed@) == allowed_addresses(
            match container_addresses {
                Some(text) => Some(text@),
                None => None,
            },
            match wsl_addresses {
                Some(text) => Some(text@),
                None => None,
            },
        ),
{
    let mut allowed: Vec<String> = Vec::new();
    allowed.push("127.0.0.1".to_owned());
    allowed.push("::1".to_owned());
    let ghost head = seq!["127.0.0.1"@, "::1"@];
    let ghost mut listed: Seq<Seq<char>> = Seq::empty();
    match container_addresses {
        None => {
        },
        Some(text) => {
            let all = split_lines(&chars_of(text.as_str()));
            let mut i: usize = 0;
            while i < all.len()
                invariant
                    i <= all.len(),
                    views(all@) == lines(text@),
                    texts(allowed@) == head + listed_addresses(lines(text@), i as int),
                decreases all.len() - i,
            {
                let ghost before = texts(allowed@);
                let address = trim(&all[i]);
                if address.len() > 0 {
                    allowed.push(string_of(&address));
                    assert(texts(allowed@) =~= before.push(address@));
                }
                i += 1;
            }
            proof {
                listed = listed_addresses(lines(text@), lines(text@).len() as int);
            }
        },
    }
    let ghost base = head + listed;
    match wsl_addresses {
        None => {
        },
        Some(text) => {
            let gateway = chars_of("172.17.0.1");
            let all = split_words(&chars_of(text.as_str()));
            let mut i: usize = 0;
            while i < all.len()
                invariant
                    i <= all.len(),
                    gateway@ == "172.17.0.1"@,
                    views(all@) == words(text@),
                    texts(allowed@) == base + foreign_addresses(words(text@), i as int),
                decreases all.len() - i,
            {
                let ghost before = texts(allowed@);
                if !same_text(&all[i], &gateway) {
                    allowed.push(string_of(&all[i]));
                    assert(texts(allowed@) =~= before.push(all@[i as int]@));
                }
                i += 1;
            }
        },
    }
    allowed
}

/// The kind of system whose clipboard the server works on.
#[derive(Debug, Clone, Copy, PartialEq, Eq, Structural)]
pub enum ClipboardEnv {
    Windows,
    Wsl2,
    Linux,
    MacOs,
}

/// Tells the kind of system from the operating system and from what
/// `uname -a` printed: a Linux whose kernel description holds `WSL2` runs
/// under Windows.
pub fn detect_env(host: HostOs, kernel: &Option<String>) -> (env: ClipboardEnv)
    ensures
        env == (match host {
            HostOs::Windows => ClipboardEnv::Windows,
            HostOs::MacOs => ClipboardEnv::MacOs,
            HostOs::Linux => match kernel {
                Some(text) => if contains_pattern(text@, "WSL2"@) {
                    ClipboardEnv::Wsl2
                } else {
                    ClipboardEnv::Linux
                },
                None => ClipboardEnv::Linux,
            },
        }),
{
    match host {
        HostOs::Windows => ClipboardEnv::Windows,
        HostOs::MacOs => ClipboardEnv::MacOs,
        HostOs::Linux => match kernel {
            Some(text) => {
                if find(&chars_of(text.as_str()), &chars_of("WSL2"), 0).is_some() {
                    ClipboardEnv::Wsl2
                } else {
                    ClipboardEnv::Linux
                }
            },
            None => ClipboardEnv::Linux,
        },
    }
}

/// The command line that prints the clipboard.
pub open spec fn get_command(env: ClipboardEnv) -> Seq<Seq<char>> {
    match env {
        ClipboardEnv::Windows => seq!["win32yank.exe"@, "-o"@],
        ClipboardEnv::Wsl2 => seq!["win32yank.exe"@, "-o"@, "--lf"@],
        ClipboardEnv::Linux => seq!["xsel"@, "-bo"@],
        ClipboardEnv::MacOs => seq!["pbpaste"@],
    }
}

/// The command line that sets the clipboard to what it reads.
pub open spec fn set_command(env: ClipboardEnv) -> Seq<Seq<char>> {
    match env {
        ClipboardEnv::Windows => seq!["win32yank.exe"@, "-i"@, "--crlf"@],
        ClipboardEnv::Wsl2 => seq!["win32yank.exe"@, "-i"@],
        ClipboardEnv::Linux => seq!["xsel"@, "-bi"@],
        ClipboardEnv::MacOs => seq!["pbcopy"@],
    }
}

/// Builds the command line that prints the clipboard.
pub fn get_clipboard(env: ClipboardEnv) -> (args: Vec<String>)
    ensures
        texts(args@) == get_command(env),
{
    let mut args: Vec<String> = Vec::new();
    match env {
        ClipboardEnv::Windows => {
            args.push("win32yank.exe".to_owned());
            args.push("-o".to_owned());
        },
        ClipboardEnv::Wsl2 => {
            args.push("win32yank.exe".to_owned());
            args.push("-o".to_owned());
            args.push("--lf".to_owned());
        },
        ClipboardEnv::Linux => {
            args.push("xsel".to_owned());
            args.push("-bo".to_owned());
        },
        ClipboardEnv::MacOs => {
            args.push("pbpaste".to_owned());
        },
    }
    args
}

/// Builds the command line that sets the clipboard to what it reads.
pub fn set_clipboard(env: ClipboardEnv) -> (args: Vec<String>)
    ensures
        texts(args@) == set_command(env),
{
    let mut args: Vec<String> = Vec::new();
    match env {
        ClipboardEnv::Windows => {
            args.push("win32yank.exe".to_owned());
            args.push("-i".to_owned());
            args.push("--crlf".to_owned());
        },
        ClipboardEnv::Wsl2 => {
            args.push("win32yank.exe".to_owned());
            args.push("-i".to_owned());
        },
        ClipboardEnv::Linux => {
            args.push("xsel".to_owned());
            args.push("-bi".to_owned());
        },
        ClipboardEnv::MacOs => {
            args.push("pbcopy".to_owned());
        },
    }
    args
}

} // verus!
