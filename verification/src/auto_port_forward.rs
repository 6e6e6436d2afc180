//! Automatic forwarding of the ports that processes inside the container
//! listen on.
//!
//! The forwarder is polled: after each look at the container's listening
//! ports it says which ports need a relay and which relays have lost their
//! port. Ports up to 1024 and the excluded ports are never forwarded.

use crate::devcontainer::{ExecError, PortForwardGuard};
use crate::port::{
    preferred_or_fallback, searched, PortError, RANDOM_PORT_END, RANDOM_PORT_MIN,
};
use vstd::prelude::*;

verus! {

/// Ports up to this one are never forwarded automatically.
pub const PRIVILEGED_PORT_MAX: u16 = 1024;

/// Seconds between two polls of the container.
pub const POLL_INTERVAL_SECS: u64 = 2;

/// `port` may be forwarded automatically: it lies above the privileged ports
/// and is not excluded.
pub open spec fn eligible(port: u16, exclude: Seq<u16>) -> bool {
    port > PRIVILEGED_PORT_MAX && !exclude.contains(port)
}

/// What the forwarding loop does when it wakes up.
#[derive(Debug, Clone, Copy, PartialEq, Eq, Structural)]
pub enum LoopStep {
    /// Leave the loop and tear down every relay.
    Stop,
    /// Look at the container's listening ports.
    Poll,
    /// Nothing happened yet: keep waiting.
    Wait,
}

/// Decides what the loop does when it wakes up. The shutdown signal wins
/// over the timer where both are ready.
pub fn next_step(shutdown_signalled: bool, interval_elapsed: bool) -> (step: LoopStep)
    ensures
        step == (if shutdown_signalled {
            LoopStep::Stop
        } else if interval_elapsed {
            LoopStep::Poll
        } else {
            LoopStep::Wait
        }),
{
    if shutdown_signalled {
        LoopStep::Stop
    } else if interval_elapsed {
        LoopStep::Poll
    } else {
        LoopStep::Wait
    }
}

/// One port that is forwarded automatically, with the guard of its relay.
#[derive(Debug, PartialEq, Eq)]
pub struct AutoForwardEntry {
    pub container_port: u16,
    pub host_port: u16,
    pub guard: PortForwardGuard,
}

/// The ports that are forwarded automatically, and the ports that never are.
#[derive(Debug)]
pub struct AutoPortForwarder {
    exclude_ports: Vec<u16>,
    forwarded: Vec<AutoForwardEntry>,
}

/// The container ports of `entries`, in order.
pub open spec fn container_ports(entries: Seq<AutoForwardEntry>) -> Seq<u16> {
    Seq::new(entries.len(), |i: int| entries[i].container_port)
}

/// Of the first `n` listening ports, those that need a relay: eligible, not
/// forwarded yet, and each once, in the order in which they are listed.
pub open spec fn new_ports(listening: Seq<u16>, exclude: Seq<u16>, known: Seq<u16>, n: int) -> Seq<
    u16,
>
    decreases n,
{
    if n <= 0 {
        Seq::empty()
    } else {
        let before = new_ports(listening, exclude, known, n - 1);
        let port = listening[n - 1];
        if eligible(port, exclude) && !known.contains(port) && !before.contains(port) {
            before.push(port)
        } else {
            before
        }
    }
}

/// Of the first `n` entries, those whose container port is still listening.
pub open spec fn kept_entries(entries: Seq<AutoForwardEntry>, listening: Seq<u16>, n: int) -> Seq<
    AutoForwardEntry,
>
    decreases n,
{
    if n <= 0 {
        Seq::empty()
    } else {
        let before = kept_entries(entries, listening, n - 1);
        if listening.contains(entries[n - 1].container_port) {
            before.push(entries[n - 1])
        } else {
            before
        }
    }
}

/// Of the first `n` entries, those whose container port listens no more.
pub open spec fn closed_entries(entries: Seq<AutoForwardEntry>, listening: Seq<u16>, n: int) -> Seq<
    AutoForwardEntry,
>
    decreases n,
{
    if n <= 0 {
        Seq::empty()
    } else {
        let before = closed_entries(entries, listening, n - 1);
        if listening.contains(entries[n - 1].container_port) {
            before
        } else {
            before.push(entries[n - 1])
        }
    }
}

/// Whether `port` occurs in `ports`.
pub fn contains_port(ports: &Vec<u16>, port: u16) -> (found: bool)
    ensures
        found == ports@.contains(port),
{
    let mut i: usize = 0;
    while i < ports.len()
        invariant
            i <= ports.len(),
            forall|j: int| 0 <= j < i ==> ports@[j] != port,
        decreases ports.len() - i,
    {
        if ports[i] == port {
            return true;
        }
        i += 1;
    }
    false
}

impl AutoPortForwarder {
    /// The ports that are never forwarded.
    pub closed spec fn exclusions(&self) -> Seq<u16> {
        self.exclude_ports@
    }

    /// The ports that are forwarded, in the order in which they were added.
    pub closed spec fn entries(&self) -> Seq<AutoForwardEntry> {
        self.forwarded@
    }

    /// The invariant of the forwarder: no container port is forwarded twice,
    /// and every forwarded port is eligible.
    pub open spec fn wf(&self) -> bool {
        &&& forall|i: int, j: int|
            0 <= i < j < self.entries().len() ==> self.entries()[i].container_port
                != self.entries()[j].container_port
        &&& forall|i: int|
            0 <= i < self.entries().len() ==> eligible(
                #[trigger] self.entries()[i].container_port,
                self.exclusions(),
            )
    }

    /// A forwarder that forwards nothing yet and will never forward the
    /// ports of `exclude_ports`.
    pub fn start(exclude_ports: Vec<u16>) -> (forwarder: Self)
        ensures
            forwarder.wf(),
            forwarder.exclusions() == exclude_ports@,
            forwarder.entries().len() == 0,
    {
        AutoPortForwarder { exclude_ports, forwarded: Vec::new() }
    }

    /// The number of ports that are forwarded.
    pub fn len(&self) -> (n: usize)
        ensures
            n == self.entries().len(),
    {
        self.forwarded.len()
    }

    /// Whether `container_port` is forwarded.
    pub fn is_forwarded(&self, container_port: u16) -> (found: bool)
        ensures
            found == container_ports(self.entries()).contains(container_port),
    {
        let mut i: usize = 0;
        while i < self.forwarded.len()
            invariant
                i <= self.forwarded.len(),
                forall|j: int| 0 <= j < i ==> self.forwarded@[j].container_port != container_port,
            decreases self.forwarded.len() - i,
        {
            if self.forwarded[i].container_port == container_port {
                assert(container_ports(self.entries())[i as int] == container_port);
                return true;
            }
            i += 1;
        }
        false
    }

    /// Whether `port` may be forwarded automatically.
    pub fn is_eligible(&self, port: u16) -> (ok: bool)
        ensures
            ok == eligible(port, self.exclusions()),
    {
        port > PRIVILEGED_PORT_MAX && !contains_port(&self.exclude_ports, port)
    }

    /// The ports that need a relay after a poll. A failed poll asks for
    /// nothing.
    pub fn ports_to_forward(&self, poll: &Result<Vec<u16>, ExecError>) -> (ports: Vec<u16>)
        ensures
            match poll {
                Ok(listening) => ports@ == new_ports(
                    listening@,
                    self.exclusions(),
                    container_ports(self.entries()),
                    listening.len() as int,
                ),
                Err(_) => ports.len() == 0,
            },
    {
        let mut ports: Vec<u16> = Vec::new();
        match poll {
            Err(_) => {},
            Ok(listening) => {
                let mut i: usize = 0;
                while i < listening.len()
                    invariant
                        i <= listening.len(),
                        ports@ == new_ports(
                            listening@,
                            self.exclusions(),
                            container_ports(self.entries()),
                            i as int,
                        ),
                    decreases listening.len() - i,
                {
                    let port = listening[i];
                    if self.is_eligible(port) && !self.is_forwarded(port) && !contains_port(
                        &ports,
                        port,
                    ) {
                        ports.push(port);
                    }
                    i += 1;
                }
            },
        }
        ports
    }
}

impl AutoPortForwarder {
    /// Takes over the relay that was started for `container_port`. A port
    /// that is not eligible or is forwarded already is refused: the guard
    /// comes back, for the caller to stop the relay, and nothing changes.
    pub fn record_forward(
        &mut self,
        container_port: u16,
        host_port: u16,
        guard: PortForwardGuard,
    ) -> (refused: Option<PortForwardGuard>)
        requires
            old(self).wf(),
        ensures
            final(self).wf(),
            final(self).exclusions() == old(self).exclusions(),
            match refused {
                Some(g) => g == guard && final(self).entries() == old(self).entries() && !(eligible(
                    container_port,
                    old(self).exclusions(),
                ) && !container_ports(old(self).entries()).contains(container_port)),
                None => eligible(container_port, old(self).exclusions()) && !container_ports(
                    old(self).entries(),
                ).contains(container_port) && final(self).entries() == old(self).entries().push(
                    AutoForwardEntry { container_port, host_port, guard },
                ),
            },
    {
        if !self.is_eligible(container_port) || self.is_forwarded(container_port) {
            return Some(guard);
        }
        proof {
            assert forall|i: int| 0 <= i < self.entries().len() implies self.entries()[i]
                .container_port != container_port by {
                assert(container_ports(self.entries())[i] == self.entries()[i].container_port);
            }
        }
        self.forwarded.push(AutoForwardEntry { container_port, host_port, guard });
        None
    }

    /// Gives up the relays whose container port listens no more after a
    /// poll: they leave the forwarder and are handed to the caller for
    /// teardown. A failed poll gives up nothing.
    pub fn retire_closed(&mut self, poll: &Result<Vec<u16>, ExecError>) -> (closed: Vec<
        AutoForwardEntry,
    >)
        requires
            old(self).wf(),
        ensures
            final(self).wf(),
            final(self).exclusions() == old(self).exclusions(),
            match poll {
                Ok(listening) => final(self).entries() == kept_entries(
                    old(self).entries(),
                    listening@,
                    old(self).entries().len() as int,
                ) && closed@ == closed_entries(
                    old(self).entries(),
                    listening@,
                    old(self).entries().len() as int,
                ),
                Err(_) => final(self).entries() == old(self).entries() && closed.len() == 0,
            },
            final(self).entries().len() + closed.len() == old(self).entries().len(),
    {
        let mut closed: Vec<AutoForwardEntry> = Vec::new();
        match poll {
            Err(_) => {},
            Ok(listening) => {
                let ghost all = self.entries();
                let mut i: usize = 0;
                let ghost mut done: int = 0;
                while i < self.forwarded.len()
                    invariant
                        self.wf(),
                        self.exclusions() == old(self).exclusions(),
                        all == old(self).entries(),
                        0 <= done <= all.len(),
                        i == kept_entries(all, listening@, done).len(),
                        i + (all.len() - done) == self.entries().len(),
                        self.entries() == kept_entries(all, listening@, done) + all.subrange(
                            done,
                            all.len() as int,
                        ),
                        closed@ == closed_entries(all, listening@, done),
                        closed.len() + i == done,
                    decreases self.forwarded.len() - i,
                {
                    if contains_port(listening, self.forwarded[i].container_port) {
                        proof {
                            done = done + 1;
                        }
                        i += 1;
                    } else {
                        let entry = self.forwarded.remove(i);
                        closed.push(entry);
                        proof {
                            done = done + 1;
                        }
                    }
                }
            },
        }
        closed
    }

    /// Ends the forwarder: every relay leaves it and its guard is handed to
    /// the caller for teardown, one guard for each forwarded port.
    pub fn shutdown(&mut self) -> (guards: Vec<PortForwardGuard>)
        ensures
            final(self).entries().len() == 0,
            final(self).wf(),
            final(self).exclusions() == old(self).exclusions(),
            guards.len() == old(self).entries().len(),
            forall|i: int|
                0 <= i < guards.len() ==> #[trigger] guards@[i] == old(self).entries()[i].guard,
    {
        let mut guards: Vec<PortForwardGuard> = Vec::new();
        let ghost all = self.entries();
        while self.forwarded.len() > 0
            invariant
                self.exclusions() == old(self).exclusions(),
                all == old(self).entries(),
                guards.len() + self.entries().len() == all.len(),
                self.entries() == all.subrange(guards.len() as int, all.len() as int),
                forall|i: int| 0 <= i < guards.len() ==> #[trigger] guards@[i] == all[i].guard,
            decreases self.forwarded.len(),
        {
            let entry = self.forwarded.remove(0);
            guards.push(entry.guard);
        }
        guards
    }
}

/// Chooses the host port for a container port: the same number if `probe`
/// reports it free on the host, else a free port of the random range, and
/// the same number again if no free port was found.
pub fn choose_host_port<F: Fn(u16) -> bool>(container_port: u16, probe: &F) -> (host_port: u16)
    requires
        forall|p: u16| #[trigger] call_requires(probe, (p,)),
    ensures
        host_port != container_port ==> RANDOM_PORT_MIN <= host_port < RANDOM_PORT_END,
        host_port != container_port ==> call_ensures(probe, (container_port,), false)
            && call_ensures(probe, (host_port,), true),
        host_port == container_port ==> call_ensures(probe, (container_port,), true) || (
        call_ensures(probe, (container_port,), false) && searched(
            probe,
            Err(PortError::ExhaustedAttempts),
        )),
        (forall|free: bool| call_ensures(probe, (container_port,), free) ==> free) ==> host_port
            == container_port,
{
    preferred_or_fallback(container_port, probe)
}

/// Exclusion and threshold are kept whatever is polled: every port that a
/// forwarder in good order forwards lies above the privileged ports and is
/// not excluded.
pub proof fn lemma_forwarded_ports_are_eligible(forwarder: AutoPortForwarder, i: int)
    requires
        forwarder.wf(),
        0 <= i < forwarder.entries().len(),
    ensures
        forwarder.entries()[i].container_port > PRIVILEGED_PORT_MAX,
        !forwarder.exclusions().contains(forwarder.entries()[i].container_port),
        forall|j: int|
            0 <= j < forwarder.entries().len() && j != i ==> forwarder.entries()[j].container_port
                != forwarder.entries()[i].container_port,
{
    assert(eligible(forwarder.entries()[i].container_port, forwarder.exclusions()));
}

/// `port` is one of the first `n` listening ports.
pub open spec fn listed(listening: Seq<u16>, n: int, port: u16) -> bool {
    exists|j: int| 0 <= j < n && j < listening.len() && #[trigger] listening[j] == port
}

/// What a poll asks to forward is eligible, listening, not forwarded yet,
/// and asked for once; and every port of that kind is asked for. So no
/// excluded port and no port up to 1024 is ever forwarded.
pub proof fn lemma_new_ports(listening: Seq<u16>, exclude: Seq<u16>, known: Seq<u16>, n: int)
    requires
        0 <= n <= listening.len(),
    ensures
        new_ports(listening, exclude, known, n).no_duplicates(),
        forall|port: u16|
            #[trigger] new_ports(listening, exclude, known, n).contains(port) <==> (listed(
                listening,
                n,
                port,
            ) && eligible(port, exclude) && !known.contains(port)),
    decreases n,
{
    if n > 0 {
        lemma_new_ports(listening, exclude, known, n - 1);
        let before = new_ports(listening, exclude, known, n - 1);
        let now = new_ports(listening, exclude, known, n);
        let last = listening[n - 1];
        assert forall|port: u16| #[trigger] now.contains(port) <==> (listed(listening, n, port)
            && eligible(port, exclude) && !known.contains(port)) by {
            if now.contains(port) {
                let k = choose|k: int| 0 <= k < now.len() && now[k] == port;
                if k < before.len() {
                    assert(before[k] == port);
                    assert(before.contains(port));
                    assert(listed(listening, n - 1, port));
                    let j = choose|j: int|
                        0 <= j < n - 1 && j < listening.len() && #[trigger] listening[j] == port;
                    assert(listening[j] == port);
                } else {
                    assert(port == last);
                }
            }
            if listed(listening, n, port) && eligible(port, exclude) && !known.contains(port) {
                let j = choose|j: int|
                    0 <= j < n && j < listening.len() && #[trigger] listening[j] == port;
                if j < n - 1 {
                    assert(listed(listening, n - 1, port));
                    assert(before.contains(port));
                    let k = choose|k: int| 0 <= k < before.len() && before[k] == port;
                    assert(now[k] == port);
                } else {
                    if before.contains(port) {
                        let k = choose|k: int| 0 <= k < before.len() && before[k] == port;
                        assert(now[k] == port);
                    } else {
                        assert(now[now.len() - 1] == port);
                    }
                }
            }
        }
    }
}

} // verus!
