//! The relays of a session: how they are named, how the listing of the
//! container runtime is read, and why no host port is listed twice.

use crate::devcontainer::ForwardedPort;
use crate::port::{decimal, is_digit, lemma_decimal_digits, lemma_decimal_injective};
use crate::text::{
    chars_of, contains_pattern, find, find_from, lemma_find_from, lemma_split_last, lines,
    matches_at, one_char, slice_of, split, split_on, split_words, string_of, trim_end,
    trim_end_matches, views, words,
};
use vstd::prelude::*;

verus! {

/// The name of the relay container that forwards `host_port` for the session
/// `container_id`.
pub open spec fn relay_name(container_id: Seq<char>, host_port: Seq<char>) -> Seq<char> {
    "dockim-"@ + container_id + "-relay-"@ + host_port
}

/// Builds the name of a relay container.
pub fn relay_container_name(container_id: &str, host_port: &str) -> (name: String)
    ensures
        name@ == relay_name(container_id@, host_port@),
{
    let mut name = "dockim-".to_owned();
    name.append(container_id);
    name.append("-relay-");
    name.append(host_port);
    name
}

impl View for ForwardedPort {
    type V = (Seq<char>, Seq<char>);

    /// The host port and the container port, as texts.
    open spec fn view(&self) -> (Seq<char>, Seq<char>) {
        (self.host_port@, self.container_port@)
    }
}

/// The views of a vector of forwarded ports.
pub open spec fn port_views(ports: Seq<ForwardedPort>) -> Seq<(Seq<char>, Seq<char>)> {
    Seq::new(ports.len(), |i: int| ports[i]@)
}

/// The host port that the name of a relay ends in: what follows its last
/// hyphen.
pub open spec fn host_port_of(name: Seq<char>) -> Seq<char> {
    split(name, seq!['-']).last()
}

/// The container port that one argument of a relay's command line names, if
/// it names one: in what follows the first `TCP-CONNECT:`, the second of the
/// fields that colons separate, without quotation marks at its end.
pub open spec fn target_port_of_arg(arg: Seq<char>) -> Option<Seq<char>> {
    let pieces = split(arg, "TCP-CONNECT:"@);
    if pieces.len() < 2 {
        None
    } else {
        let fields = split(pieces[1], seq![':']);
        if fields.len() < 2 {
            None
        } else {
            Some(trim_end(fields[1], '"'))
        }
    }
}

/// The container port named by the first of `args[from..]` that names one.
pub open spec fn first_target_port(args: Seq<Seq<char>>, from: int) -> Option<Seq<char>>
    decreases args.len() - from,
{
    if from < 0 || from >= args.len() {
        None
    } else {
        match target_port_of_arg(args[from]) {
            Some(port) => Some(port),
            None => first_target_port(args, from + 1),
        }
    }
}

/// The container port that a relay's command line shows, or `unknown`.
pub open spec fn container_port_of(command: Seq<char>) -> Seq<char> {
    match first_target_port(words(command), 0) {
        Some(port) => port,
        None => "unknown"@,
    }
}

/// The relay that one line of the listing describes. A line without a tab
/// describes none.
pub open spec fn entry_of_line(line: Seq<char>) -> Option<(Seq<char>, Seq<char>)> {
    match find_from(line, seq!['\t'], 0) {
        None => None,
        Some(i) => if 0 <= i < line.len() {
            Some(
                (
                    host_port_of(line.subrange(0, i)),
                    container_port_of(line.subrange(i + 1, line.len() as int)),
                ),
            )
        } else {
            None
        },
    }
}

/// The relays that the first `n` lines describe, in order.
pub open spec fn entries_of(lines: Seq<Seq<char>>, n: int) -> Seq<(Seq<char>, Seq<char>)>
    decreases n,
{
    if n <= 0 {
        Seq::empty()
    } else {
        entries_of(lines, n - 1) + (match entry_of_line(lines[n - 1]) {
            Some(entry) => seq![entry],
            None => Seq::empty(),
        })
    }
}

/// The relays that the output of the listing command describes.
pub open spec fn listing_entries(output: Seq<char>) -> Seq<(Seq<char>, Seq<char>)> {
    entries_of(lines(output), lines(output).len() as int)
}

/// Reads the container port off one argument of a relay's command line.
pub fn parse_target_port(arg: &Vec<char>) -> (port: Option<Vec<char>>)
    ensures
        match port {
            Some(p) => target_port_of_arg(arg@) == Some(p@),
            None => target_port_of_arg(arg@) is None,
        },
{
    let marker = chars_of("TCP-CONNECT:");
    let pieces = split_on(arg, &marker);
    if pieces.len() < 2 {
        return None;
    }
    let colon = one_char(':');
    let fields = split_on(&pieces[1], &colon);
    if fields.len() < 2 {
        return None;
    }
    Some(trim_end_matches(&fields[1], '"'))
}

/// Reads the container port off a relay's command line.
pub fn parse_container_port(command: &Vec<char>) -> (port: Vec<char>)
    ensures
        port@ == container_port_of(command@),
{
    let args = split_words(command);
    let mut i: usize = 0;
    while i < args.len()
        invariant
            i <= args.len(),
            views(args@) == words(command@),
            first_target_port(words(command@), 0) == first_target_port(words(command@), i as int),
        decreases args.len() - i,
    {
        match parse_target_port(&args[i]) {
            Some(port) => {
                return port;
            },
            None => {},
        }
        i += 1;
    }
    chars_of("unknown")
}

/// Reads the host port off the name of a relay.
pub fn parse_host_port(name: &Vec<char>) -> (port: Vec<char>)
    ensures
        port@ == host_port_of(name@),
{
    let hyphen = one_char('-');
    let pieces = split_on(name, &hyphen);
    let last: usize = pieces.len() - 1;
    slice_of(&pieces[last], 0, pieces[last].len())
}

/// Reads one line of the listing.
pub fn parse_listing_line(line: &Vec<char>) -> (entry: Option<ForwardedPort>)
    ensures
        match entry {
            Some(e) => entry_of_line(line@) == Some(e@),
            None => entry_of_line(line@) is None,
        },
{
    let tab = one_char('\t');
    match find(line, &tab, 0) {
        None => None,
        Some(i) => {
            proof {
                lemma_find_from(line@, tab@, 0);
            }
            let end: usize = line.len();
            let name = slice_of(line, 0, i);
            let command = slice_of(line, i + 1, end);
            let host_port = parse_host_port(&name);
            let container_port = parse_container_port(&command);
            Some(
                ForwardedPort {
                    host_port: string_of(&host_port),
                    container_port: string_of(&container_port),
                },
            )
        },
    }
}

/// Relays of one session that forward different host ports have different
/// names.
pub proof fn lemma_relay_name_injective(
    container_id: Seq<char>,
    host_port_a: Seq<char>,
    host_port_b: Seq<char>,
)
    requires
        relay_name(container_id, host_port_a) == relay_name(container_id, host_port_b),
    ensures
        host_port_a == host_port_b,
{
    let head = "dockim-"@ + container_id + "-relay-"@;
    let a = relay_name(container_id, host_port_a);
    let b = relay_name(container_id, host_port_b);
    assert(a.subrange(head.len() as int, a.len() as int) =~= host_port_a);
    assert(b.subrange(head.len() as int, b.len() as int) =~= host_port_b);
}

/// The listing reads the host port back off a relay's name, provided the
/// host port holds no hyphen.
pub proof fn lemma_host_port_read_back(container_id: Seq<char>, host_port: Seq<char>)
    requires
        forall|i: int| 0 <= i < host_port.len() ==> host_port[i] != '-',
    ensures
        host_port_of(relay_name(container_id, host_port)) == host_port,
{
    reveal_strlit("-relay-");
    let infix = "-relay-"@;
    let head = "dockim-"@ + container_id + infix;
    let name = relay_name(container_id, host_port);
    let k = head.len() as int;
    assert(name =~= head + host_port);
    assert(infix[6] == '-');
    assert(name[k - 1] == infix[6]);
    assert(name.subrange(k, name.len() as int) =~= host_port);
    assert forall|j: int| k <= j < name.len() implies name[j] != '-' by {
        assert(name[j] == host_port[j - k]);
    }
    lemma_split_last(name, '-', k, 0);
}

/// At most one relay per host port: the relays of one session for two host
/// ports have the same name exactly if the two ports are the same number,
/// and the listing reads each port back off its relay's name. As the
/// container runtime lets a name be used by one container at a time, no
/// host port is listed twice, whatever was started and stopped before.
pub proof fn lemma_one_relay_per_host_port(container_id: Seq<char>, port_a: u16, port_b: u16)
    ensures
        relay_name(container_id, decimal(port_a as nat)) == relay_name(
            container_id,
            decimal(port_b as nat),
        ) <==> port_a == port_b,
        host_port_of(relay_name(container_id, decimal(port_a as nat))) == decimal(port_a as nat),
        host_port_of(relay_name(container_id, decimal(port_b as nat))) == decimal(port_b as nat),
        host_port_of(relay_name(container_id, decimal(port_a as nat))) == host_port_of(
            relay_name(container_id, decimal(port_b as nat)),
        ) <==> port_a == port_b,
{
    let a = decimal(port_a as nat);
    let b = decimal(port_b as nat);
    lemma_decimal_digits(port_a as nat);
    lemma_decimal_digits(port_b as nat);
    assert forall|i: int| 0 <= i < a.len() implies a[i] != '-' by {
        assert(is_digit(a[i]));
    }
    assert forall|i: int| 0 <= i < b.len() implies b[i] != '-' by {
        assert(is_digit(b[i]));
    }
    lemma_host_port_read_back(container_id, a);
    lemma_host_port_read_back(container_id, b);
    if a == b {
        lemma_decimal_injective(port_a as nat, port_b as nat);
    }
    if relay_name(container_id, a) == relay_name(container_id, b) {
        lemma_relay_name_injective(container_id, a, b);
    }
}

/// One line of the listing: the name of a relay, a tab, and the relay's
/// command line.
pub open spec fn listing_line(name: Seq<char>, command: Seq<char>) -> Seq<char> {
    name + seq!['\t'] + command
}

/// A line of the listing that is made of a name without a tab and of a
/// command line yields the entry of that name and that command line.
pub proof fn lemma_entry_of_listing_line(name: Seq<char>, command: Seq<char>)
    requires
        forall|i: int| 0 <= i < name.len() ==> name[i] != '\t',
    ensures
        entry_of_line(listing_line(name, command)) == Some(
            (host_port_of(name), container_port_of(command)),
        ),
{
    let tab = seq!['\t'];
    let line = listing_line(name, command);
    let k = name.len() as int;
    assert(tab.len() == 1);
    assert(line.subrange(k, k + 1) =~= tab);
    lemma_find_from(line, tab, 0);
    match find_from(line, tab, 0) {
        None => {
            assert(matches_at(line, tab, k));
        },
        Some(i) => {
            assert(line.subrange(i, i + 1)[0] == '\t');
            if i < k {
                assert(line[i] == name[i]);
            }
            if i > k {
                assert(matches_at(line, tab, k));
            }
            assert(i == k);
        },
    }
    assert(line.subrange(0, k) =~= name);
    assert(line.subrange(k + 1, line.len() as int) =~= command);
}

/// The name of a relay for a numbered host port holds no tab, provided the
/// identifier of the container holds none.
pub proof fn lemma_relay_name_has_no_tab(container_id: Seq<char>, port: u16)
    requires
        forall|i: int| 0 <= i < container_id.len() ==> container_id[i] != '\t',
    ensures
        forall|i: int|
            0 <= i < relay_name(container_id, decimal(port as nat)).len() ==> relay_name(
                container_id,
                decimal(port as nat),
            )[i] != '\t',
{
    reveal_strlit("dockim-");
    reveal_strlit("-relay-");
    let digits = decimal(port as nat);
    lemma_decimal_digits(port as nat);
    let name = relay_name(container_id, digits);
    let a = "dockim-"@.len() as int;
    let b = a + container_id.len();
    let c = b + "-relay-"@.len();
    assert forall|i: int| 0 <= i < name.len() implies name[i] != '\t' by {
        if i < a {
            assert(name[i] == "dockim-"@[i]);
        } else if i < b {
            assert(name[i] == container_id[i - a]);
        } else if i < c {
            assert(name[i] == "-relay-"@[i - b]);
        } else {
            assert(name[i] == digits[i - c]);
            assert(is_digit(digits[i - c]));
        }
    }
}

/// The listing shows every relay once: where its lines describe the relays
/// of one session for host ports of which none occurs twice, as the
/// container runtime sees to by the names, it has one entry for each line,
/// the entry shows the host port of its relay, and no two entries show the
/// same host port.
pub proof fn lemma_listing_shows_each_host_port_once(
    container_id: Seq<char>,
    ports: Seq<u16>,
    commands: Seq<Seq<char>>,
    lines: Seq<Seq<char>>,
    n: int,
)
    requires
        forall|i: int| 0 <= i < container_id.len() ==> container_id[i] != '\t',
        ports.len() == lines.len(),
        commands.len() == lines.len(),
        0 <= n <= lines.len(),
        forall|i: int|
            0 <= i < lines.len() ==> #[trigger] lines[i] == listing_line(
                relay_name(container_id, decimal(ports[i] as nat)),
                commands[i],
            ),
        forall|i: int, j: int| 0 <= i < j < ports.len() ==> ports[i] != ports[j],
    ensures
        entries_of(lines, n).len() == n,
        forall|i: int|
            0 <= i < n ==> #[trigger] entries_of(lines, n)[i] == (
                decimal(ports[i] as nat),
                container_port_of(commands[i]),
            ),
        forall|i: int, j: int|
            0 <= i < j < n ==> entries_of(lines, n)[i].0 != entries_of(lines, n)[j].0,
    decreases n,
{
    if n > 0 {
        lemma_listing_shows_each_host_port_once(container_id, ports, commands, lines, n - 1);
        let name = relay_name(container_id, decimal(ports[n - 1] as nat));
        lemma_relay_name_has_no_tab(container_id, ports[n - 1]);
        lemma_entry_of_listing_line(name, commands[n - 1]);
        lemma_one_relay_per_host_port(container_id, ports[n - 1], ports[n - 1]);
        assert(lines[n - 1] == listing_line(name, commands[n - 1]));
        let before = entries_of(lines, n - 1);
        let now = entries_of(lines, n);
        assert(now == before.push(
            (decimal(ports[n - 1] as nat), container_port_of(commands[n - 1])),
        ));
        assert forall|i: int, j: int| 0 <= i < j < n implies now[i].0 != now[j].0 by {
            assert(now[i] == (decimal(ports[i] as nat), container_port_of(commands[i])));
            assert(now[j] == (decimal(ports[j] as nat), container_port_of(commands[j])));
            if decimal(ports[i] as nat) == decimal(ports[j] as nat) {
                lemma_decimal_injective(ports[i] as nat, ports[j] as nat);
            }
        }
    }
}

/// No argument of `args[from..]` names a container port if none of them
/// holds `TCP-CONNECT:`.
pub proof fn lemma_no_target_port(args: Seq<Seq<char>>, from: int)
    requires
        0 <= from,
        forall|i: int| from <= i < args.len() ==> !contains_pattern(args[i], "TCP-CONNECT:"@),
    ensures
        first_target_port(args, from) is None,
    decreases args.len() - from,
{
    if from < args.len() {
        assert(!contains_pattern(args[from], "TCP-CONNECT:"@));
        assert(split(args[from], "TCP-CONNECT:"@).len() == 1);
        lemma_no_target_port(args, from + 1);
    }
}

/// The listing is robust: every line that holds a tab yields an entry, and
/// the entry's container port is `unknown` where no word of the relay's
/// command line holds `TCP-CONNECT:`.
pub proof fn lemma_unrecognised_command_is_listed(line: Seq<char>)
    requires
        contains_pattern(line, seq!['\t']),
    ensures
        entry_of_line(line) is Some,
        ({
            let i = find_from(line, seq!['\t'], 0)->0;
            let command = line.subrange(i + 1, line.len() as int);
            let entry = entry_of_line(line)->0;
            (forall|k: int|
                0 <= k < words(command).len() ==> !contains_pattern(
                    words(command)[k],
                    "TCP-CONNECT:"@,
                )) ==> entry.1 == "unknown"@
        }),
{
    let tab = seq!['\t'];
    assert(tab.len() == 1);
    lemma_find_from(line, tab, 0);
    let i = find_from(line, tab, 0)->0;
    let command = line.subrange(i + 1, line.len() as int);
    if forall|k: int|
        0 <= k < words(command).len() ==> !contains_pattern(words(command)[k], "TCP-CONNECT:"@) {
        lemma_no_target_port(words(command), 0);
    }
}

} // verus!
