//! Host-side port selection.

use rand::Rng;
use vstd::prelude::*;

verus! {

/// Lowest port of the range that random candidates are drawn from.
pub const RANDOM_PORT_MIN: u16 = 50000;

/// First port above the range that random candidates are drawn from.
pub const RANDOM_PORT_END: u16 = 60000;

/// Number of candidates that are probed before the search gives up.
pub const MAX_ATTEMPTS: u32 = 1000;

/// Why no host port could be chosen.
#[derive(Debug, Clone, Copy, PartialEq, Eq, Structural)]
pub enum PortError {
    /// Every probed candidate was already in use.
    ExhaustedAttempts,
}

/// Calls `rand::Rng::random_range` on the thread-local generator of
/// `rand::rng` with the half-open range `low..high`. The generator panics on
/// an empty range, hence the precondition; for a non-empty range it returns a
/// value of that range, which is all that is claimed here.
#[verifier::external_body]
fn random_in_range(low: u16, high: u16) -> (candidate: u16)
    requires
        low < high,
    ensures
        low <= candidate < high,
{
    rand::rng().random_range(low..high)
}

/// Draws one candidate port from the random range.
pub fn random_candidate() -> (candidate: u16)
    ensures
        RANDOM_PORT_MIN <= candidate < RANDOM_PORT_END,
{
    random_in_range(RANDOM_PORT_MIN, RANDOM_PORT_END)
}

/// What the search does after one candidate has been probed.
#[derive(Debug, Clone, Copy, PartialEq, Eq, Structural)]
pub enum SearchStep {
    /// The candidate is free: the search ends with it.
    Found(u16),
    /// The candidate is taken and attempts are left: draw another one.
    Retry,
    /// The candidate is taken and it was the last attempt.
    Exhausted,
}

/// The step that follows the probe of `candidate`, the `attempt`-th one
/// counted from 1.
pub open spec fn step_after_probe(candidate: u16, available: bool, attempt: u32) -> SearchStep {
    if available {
        SearchStep::Found(candidate)
    } else if attempt < MAX_ATTEMPTS {
        SearchStep::Retry
    } else {
        SearchStep::Exhausted
    }
}

/// Decides how the search goes on once `candidate`, the `attempt`-th one
/// counted from 1, has been probed and found `available` or not.
pub fn after_probe(candidate: u16, available: bool, attempt: u32) -> (step: SearchStep)
    ensures
        step == step_after_probe(candidate, available, attempt),
{
    if available {
        SearchStep::Found(candidate)
    } else if attempt < MAX_ATTEMPTS {
        SearchStep::Retry
    } else {
        SearchStep::Exhausted
    }
}

/// Every port of `tried` lies in the random range and was reported taken by
/// `probe`.
pub open spec fn all_taken<F: Fn(u16) -> bool>(probe: &F, tried: Seq<u16>) -> bool {
    forall|i: int|
        0 <= i < tried.len() ==> RANDOM_PORT_MIN <= #[trigger] tried[i] < RANDOM_PORT_END
            && call_ensures(probe, (tried[i],), false)
}

/// What a search with `probe` that ended with `found` has done: it has
/// probed candidates of the random range one after the other; a port that it
/// found was reported free, after fewer than `MAX_ATTEMPTS` candidates were
/// reported taken; and it gave up only after `MAX_ATTEMPTS` candidates were
/// reported taken.
pub open spec fn searched<F: Fn(u16) -> bool>(probe: &F, found: Result<u16, PortError>) -> bool {
    exists|tried: Seq<u16>|
        #[trigger] all_taken(probe, tried) && match found {
            Ok(port) => tried.len() < MAX_ATTEMPTS && RANDOM_PORT_MIN <= port < RANDOM_PORT_END
                && call_ensures(probe, (port,), true),
            Err(e) => tried.len() == MAX_ATTEMPTS && e == PortError::ExhaustedAttempts,
        }
}

/// Looks for a free host port: draws candidates from the random range and
/// asks `probe` about each, up to `MAX_ATTEMPTS` times. A port that is
/// returned is one that `probe` reported as free; the search fails only
/// after `probe` has reported `MAX_ATTEMPTS` candidates as taken.
pub fn find_random_available_port<F: Fn(u16) -> bool>(probe: &F) -> (found: Result<u16, PortError>)
    requires
        forall|p: u16| #[trigger] call_requires(probe, (p,)),
    ensures
        searched(probe, found),
        match found {
            Ok(port) => RANDOM_PORT_MIN <= port < RANDOM_PORT_END && call_ensures(
                probe,
                (port,),
                true,
            ),
            Err(e) => e == PortError::ExhaustedAttempts && exists|port: u16|
                RANDOM_PORT_MIN <= port < RANDOM_PORT_END && #[trigger] call_ensures(
                    probe,
                    (port,),
                    false,
                ),
        },
{
    let mut attempt: u32 = 1;
    let ghost mut tried: Seq<u16> = Seq::empty();
    loop
        invariant
            1 <= attempt <= MAX_ATTEMPTS,
            tried.len() == attempt - 1,
            all_taken(probe, tried),
            forall|p: u16| #[trigger] call_requires(probe, (p,)),
        decreases MAX_ATTEMPTS - attempt,
    {
        let candidate = random_candidate();
        let available = probe(candidate);
        match after_probe(candidate, available, attempt) {
            SearchStep::Found(port) => {
                return Ok(port);
            },
            SearchStep::Retry => {
                proof {
                    tried = tried.push(candidate);
                }
                attempt += 1;
            },
            SearchStep::Exhausted => {
                proof {
                    tried = tried.push(candidate);
                    assert(all_taken(probe, tried));
                }
                return Err(PortError::ExhaustedAttempts);
            },
        }
    }
}

/// The host port to use when `preferred` was probed with the answer
/// `preferred_free` and, where it was taken, the random search ended with
/// `fallback`.
pub open spec fn resolved_port(
    preferred: u16,
    preferred_free: bool,
    fallback: Result<u16, PortError>,
) -> u16 {
    if preferred_free {
        preferred
    } else {
        match fallback {
            Ok(port) => port,
            Err(_) => preferred,
        }
    }
}

/// Chooses between the preferred port and the outcome of the random search:
/// the preferred port if it is free, else the port that the search found, and
/// the preferred port again if the search found none.
pub fn resolve_host_port(
    preferred: u16,
    preferred_free: bool,
    fallback: Result<u16, PortError>,
) -> (port: u16)
    ensures
        port == resolved_port(preferred, preferred_free, fallback),
{
    if preferred_free {
        preferred
    } else {
        match fallback {
            Ok(port) => port,
            Err(_) => preferred,
        }
    }
}

/// Returns `preferred` if `probe` reports it free, and otherwise falls back
/// to the random search. Whatever is returned other than `preferred` lies in
/// the random range and was reported free by `probe`; and `preferred` is
/// returned only if `probe` reported it free, or reported it taken and the
/// random search then gave up.
pub fn preferred_or_fallback<F: Fn(u16) -> bool>(preferred: u16, probe: &F) -> (port: u16)
    requires
        forall|p: u16| #[trigger] call_requires(probe, (p,)),
    ensures
        port != preferred ==> RANDOM_PORT_MIN <= port < RANDOM_PORT_END,
        port != preferred ==> call_ensures(probe, (preferred,), false) && call_ensures(
            probe,
            (port,),
            true,
        ),
        port == preferred ==> call_ensures(probe, (preferred,), true) || (call_ensures(
            probe,
            (preferred,),
            false,
        ) && searched(probe, Err(PortError::ExhaustedAttempts))),
        (forall|free: bool| call_ensures(probe, (preferred,), free) ==> free) ==> port == preferred,
{
    if probe(preferred) {
        resolve_host_port(preferred, true, Err(PortError::ExhaustedAttempts))
    } else {
        let fallback = find_random_available_port(probe);
        resolve_host_port(preferred, false, fallback)
    }
}

/// The character that stands for the decimal digit `d`.
pub open spec fn digit_char(d: int) -> char {
    (48 + d) as char
}

/// The decimal notation of `n`, without leading zeros.
pub open spec fn decimal(n: nat) -> Seq<char>
    decreases n,
{
    if n < 10 {
        seq![digit_char(n as int)]
    } else {
        decimal(n / 10).push(digit_char((n % 10) as int))
    }
}

/// `c` is one of the ten decimal digits.
pub open spec fn is_digit(c: char) -> bool {
    48 <= c as int <= 57
}

/// Appends the decimal notation of `n` to `out`.
pub fn push_decimal(out: &mut Vec<char>, n: u64)
    ensures
        final(out)@ == old(out)@ + decimal(n as nat),
    decreases n,
{
    if n >= 10 {
        push_decimal(out, n / 10);
    }
    let d: u8 = (n % 10) as u8;
    let c: char = (48u8 + d) as char;
    out.push(c);
}

/// The decimal notation of a port number.
pub fn port_text(port: u16) -> (text: String)
    ensures
        text@ == decimal(port as nat),
{
    let mut v: Vec<char> = Vec::new();
    push_decimal(&mut v, port as u64);
    crate::text::string_of(&v)
}

/// The decimal notation of a number is made of digits only, and is not empty.
pub proof fn lemma_decimal_digits(n: nat)
    ensures
        decimal(n).len() >= 1,
        n >= 10 ==> decimal(n).len() >= 2,
        forall|i: int| 0 <= i < decimal(n).len() ==> is_digit(#[trigger] decimal(n)[i]),
    decreases n,
{
    if n >= 10 {
        lemma_decimal_digits(n / 10);
    }
}

/// Two numbers with the same decimal notation are the same number.
pub proof fn lemma_decimal_injective(a: nat, b: nat)
    requires
        decimal(a) == decimal(b),
    ensures
        a == b,
    decreases a,
{
    lemma_decimal_digits(a);
    lemma_decimal_digits(b);
    // The two notations have the same length, so both numbers have one
    // digit or both have more.
    if a < 10 && b < 10 {
        assert(decimal(a)[0] == digit_char(a as int));
        assert(decimal(b)[0] == digit_char(b as int));
    } else if a >= 10 && b >= 10 {
        assert(decimal(a).last() == digit_char((a % 10) as int));
        assert(decimal(b).last() == digit_char((b % 10) as int));
        assert(decimal(a).drop_last() =~= decimal(a / 10));
        assert(decimal(b).drop_last() =~= decimal(b / 10));
        lemma_decimal_injective(a / 10, b / 10);
    }
}

/// The number that a text of decimal digits stands for.
pub open spec fn digits_value(s: Seq<char>) -> nat
    decreases s.len(),
{
    if s.len() == 0 {
        0
    } else {
        digits_value(s.drop_last()) * 10 + (s.last() as nat - 48) as nat
    }
}

/// Every character of `s` is a decimal digit.
pub open spec fn all_digits(s: Seq<char>) -> bool {
    forall|i: int| 0 <= i < s.len() ==> is_digit(#[trigger] s[i])
}

/// A text of digits stands for a number that is no smaller than what any
/// of its beginnings stands for.
pub proof fn lemma_digits_value_grows(s: Seq<char>, k: int)
    requires
        0 <= k <= s.len(),
    ensures
        digits_value(s.subrange(0, k)) <= digits_value(s),
    decreases s.len(),
{
    if k == s.len() {
        assert(s.subrange(0, k) =~= s);
    } else {
        lemma_digits_value_grows(s.drop_last(), k);
        assert(s.drop_last().subrange(0, k) =~= s.subrange(0, k));
    }
}

/// The port that a text stands for: decimal digits, after a plus sign or
/// none, that make a number of 16 bits.
pub open spec fn port_of(text: Seq<char>) -> Option<u16> {
    let body = if text.len() > 0 && text[0] == '+' {
        text.drop_first()
    } else {
        text
    };
    if body.len() == 0 || !all_digits(body) || digits_value(body) > u16::MAX {
        None
    } else {
        Some(digits_value(body) as u16)
    }
}

/// Reads a port number.
pub fn parse_port(text: &str) -> (port: Option<u16>)
    ensures
        port == port_of(text@),
{
    let s = crate::text::chars_of(text);
    let start: usize = if s.len() > 0 && s[0] == '+' {
        1
    } else {
        0
    };
    let ghost body = s@.subrange(start as int, s.len() as int);
    if start == s.len() {
        return None;
    }
    let mut value: u32 = 0;
    let mut i: usize = start;
    while i < s.len()
        invariant
            start <= i <= s.len(),
            body.len() > 0,
            body == s@.subrange(start as int, s.len() as int),
            body == (if text@.len() > 0 && text@[0] == '+' {
                text@.drop_first()
            } else {
                text@
            }),
            all_digits(body.subrange(0, i - start)),
            value == digits_value(body.subrange(0, i - start)),
            value <= u16::MAX,
        decreases s.len() - i,
    {
        let c = s[i];
        let ghost upto = body.subrange(0, i - start);
        let ghost next = body.subrange(0, i + 1 - start);
        if !('0' <= c && c <= '9') {
            assert(!is_digit(body[i - start]));
            return None;
        }
        assert(next.drop_last() =~= upto);
        value = value * 10 + (c as u32 - 48);
        if value > 65535 {
            proof {
                if all_digits(body) {
                    lemma_digits_value_grows(body, i + 1 - start);
                }
            }
            return None;
        }
        i += 1;
    }
    assert(body.subrange(0, body.len() as int) =~= body);
    Some(value as u16)
}

/// The decimal notation of a port is read back as that port.
pub proof fn lemma_port_text_read_back(port: u16)
    ensures
        port_of(decimal(port as nat)) == Some(port),
{
    lemma_digits_of_decimal(port as nat);
    lemma_decimal_digits(port as nat);
    assert(decimal(port as nat)[0] != '+') by {
        assert(is_digit(decimal(port as nat)[0]));
    }
}

/// The decimal notation of a number is made of digits that stand for the
/// number.
pub proof fn lemma_digits_of_decimal(n: nat)
    ensures
        all_digits(decimal(n)),
        digits_value(decimal(n)) == n,
    decreases n,
{
    lemma_decimal_digits(n);
    if n < 10 {
        assert(decimal(n).drop_last() =~= Seq::<char>::empty());
        assert(digits_value(decimal(n).drop_last()) == 0);
    } else {
        lemma_digits_of_decimal(n / 10);
        assert(decimal(n).drop_last() =~= decimal(n / 10));
    }
}

} // verus!
