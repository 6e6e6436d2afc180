//! The ports that processes inside the container listen on, read off the
//! kernel's table of TCP sockets (`/proc/net/tcp` and `/proc/net/tcp6`).

use crate::text::{
    chars_of, lines, one_char, split, split_lines, split_on, split_words, texts, views, words,
};
use vstd::prelude::*;

verus! {

/// The value of a hexadecimal digit, if `c` is one.
pub open spec fn hex_digit(c: char) -> Option<nat> {
    let n = c as nat;
    if 48 <= n <= 57 {
        Some((n - 48) as nat)
    } else if 65 <= n <= 70 {
        Some((n - 55) as nat)
    } else if 97 <= n <= 102 {
        Some((n - 87) as nat)
    } else {
        None
    }
}

/// The number that a text of hexadecimal digits stands for, if every
/// character of it is such a digit.
pub open spec fn hex_value(s: Seq<char>) -> Option<nat>
    decreases s.len(),
{
    if s.len() == 0 {
        Some(0)
    } else {
        match (hex_value(s.drop_last()), hex_digit(s.last())) {
            (Some(high), Some(low)) => Some(high * 16 + low),
            _ => None,
        }
    }
}

/// The port that a text of one to four hexadecimal digits stands for.
pub open spec fn hex_port(s: Seq<char>) -> Option<u16> {
    if 1 <= s.len() <= 4 {
        match hex_value(s) {
            Some(value) => if value <= u16::MAX {
                Some(value as u16)
            } else {
                None
            },
            None => None,
        }
    } else {
        None
    }
}

/// Reads the value of a hexadecimal digit.
fn parse_hex_digit(c: char) -> (value: Option<u32>)
    ensures
        match value {
            Some(v) => hex_digit(c) == Some(v as nat) && v < 16,
            None => hex_digit(c) is None,
        },
{
    let n: u32 = c as u32;
    if 48 <= n && n <= 57 {
        Some(n - 48)
    } else if 65 <= n && n <= 70 {
        Some(n - 55)
    } else if 97 <= n && n <= 102 {
        Some(n - 87)
    } else {
        None
    }
}

/// Reads a port written as one to four hexadecimal digits.
pub fn parse_hex_port(s: &Vec<char>) -> (port: Option<u16>)
    ensures
        port == hex_port(s@),
{
    if s.len() < 1 || s.len() > 4 {
        return None;
    }
    let mut value: u32 = 0;
    let mut i: usize = 0;
    while i < s.len()
        invariant
            i <= s.len() <= 4,
            hex_value(s@.subrange(0, i as int)) == Some(value as nat),
            value < 0x10000,
            i < 4 ==> value < 0x1000,
            i < 3 ==> value < 0x100,
            i < 2 ==> value < 0x10,
            i < 1 ==> value == 0,
        decreases s.len() - i,
    {
        let ghost next = s@.subrange(0, i + 1);
        assert(next.drop_last() =~= s@.subrange(0, i as int));
        match parse_hex_digit(s[i]) {
            None => {
                proof {
                    lemma_hex_value_prefix(s@, i + 1);
                }
                return None;
            },
            Some(digit) => {
                value = value * 16 + digit;
            },
        }
        i += 1;
    }
    assert(s@.subrange(0, s@.len() as int) =~= s@);
    Some(value as u16)
}

/// A text with a beginning that is no hexadecimal number is none itself.
pub proof fn lemma_hex_value_prefix(s: Seq<char>, k: int)
    requires
        0 <= k <= s.len(),
        hex_value(s.subrange(0, k)) is None,
    ensures
        hex_value(s) is None,
    decreases s.len(),
{
    if k == s.len() {
        assert(s.subrange(0, k) =~= s);
    } else {
        assert(s.drop_last().subrange(0, k) =~= s.subrange(0, k));
        lemma_hex_value_prefix(s.drop_last(), k);
    }
}

/// The port that one line of the socket table shows as listening: the line
/// has at least four fields, the fourth is the state `0A`, and the second,
/// the local address, ends after its last colon in the port.
pub open spec fn listening_port_of_line(line: Seq<char>) -> Option<u16> {
    let fields = words(line);
    if fields.len() >= 4 && fields[3] == "0A"@ {
        hex_port(split(fields[1], seq![':']).last())
    } else {
        None
    }
}

/// The listening ports that the first `n` lines show, in order.
pub open spec fn listening_ports_of(lines: Seq<Seq<char>>, n: int) -> Seq<u16>
    decreases n,
{
    if n <= 0 {
        Seq::empty()
    } else {
        let before = listening_ports_of(lines, n - 1);
        match listening_port_of_line(lines[n - 1]) {
            Some(port) => before.push(port),
            None => before,
        }
    }
}

/// The command line, to be run inside the container, that prints the
/// socket tables.
pub fn detect_listening_ports_args() -> (args: Vec<String>)
    ensures
        texts(args@) == seq!["sh"@, "-c"@, "cat /proc/net/tcp /proc/net/tcp6 2>/dev/null"@],
{
    let mut args: Vec<String> = Vec::new();
    args.push("sh".to_owned());
    args.push("-c".to_owned());
    args.push("cat /proc/net/tcp /proc/net/tcp6 2>/dev/null".to_owned());
    args
}

/// Reads the listening ports off the socket tables: one port for each line
/// that shows a listening socket, in the order of the lines. A port that
/// listens on several addresses is listed for each of them.
pub fn detect_listening_ports(tables: &str) -> (ports: Vec<u16>)
    ensures
        ports@ == listening_ports_of(lines(tables@), lines(tables@).len() as int),
{
    let listen = chars_of("0A");
    let colon = one_char(':');
    let all = split_lines(&chars_of(tables));
    let mut ports: Vec<u16> = Vec::new();
    let mut i: usize = 0;
    while i < all.len()
        invariant
            i <= all.len(),
            listen@ == "0A"@,
            colon@ == seq![':'],
            views(all@) == lines(tables@),
            ports@ == listening_ports_of(lines(tables@), i as int),
        decreases all.len() - i,
    {
        let fields = split_words(&all[i]);
        if fields.len() >= 4 {
            if crate::text::same_text(&fields[3], &listen) {
                let pieces = split_on(&fields[1], &colon);
                let last: usize = pieces.len() - 1;
                match parse_hex_port(&pieces[last]) {
                    Some(port) => {
                        ports.push(port);
                    },
                    None => {},
                }
            }
        }
        i += 1;
    }
    ports
}

} // verus!
