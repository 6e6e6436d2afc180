use dockim::auto_port_forward::{
    choose_host_port, contains_port, next_step, AutoForwardEntry, AutoPortForwarder, LoopStep,
    POLL_INTERVAL_SECS, PRIVILEGED_PORT_MAX,
};
use dockim::devcontainer::{ExecError, PendingForward, PortForwardGuard};

fn guard(host_port: u16) -> PortForwardGuard {
    PendingForward {
        command: vec![],
        socat_container_name: format!("dockim-abc123-relay-{host_port}"),
    }
    .launched(Ok(()))
    .unwrap()
}

fn poll(ports: &[u16]) -> Result<Vec<u16>, ExecError> {
    Ok(ports.to_vec())
}

fn failed_poll() -> Result<Vec<u16>, ExecError> {
    Err(ExecError { message: "container is gone".to_string() })
}

fn closed_ports(closed: &[AutoForwardEntry]) -> Vec<(u16, u16)> {
    closed.iter().map(|e| (e.container_port, e.host_port)).collect()
}

#[test]
fn the_loop_polls_every_two_seconds() {
    assert_eq!(POLL_INTERVAL_SECS, 2);
    assert_eq!(PRIVILEGED_PORT_MAX, 1024);
}

#[test]
fn shutdown_wins_over_the_timer() {
    assert_eq!(next_step(true, true), LoopStep::Stop);
    assert_eq!(next_step(true, false), LoopStep::Stop);
    assert_eq!(next_step(false, true), LoopStep::Poll);
    assert_eq!(next_step(false, false), LoopStep::Wait);
}

#[test]
fn excluded_ports_are_never_forwarded() {
    let forwarder = AutoPortForwarder::start(vec![54321, 3000]);
    assert!(forwarder.ports_to_forward(&poll(&[54321, 3000])).is_empty());
    assert_eq!(forwarder.ports_to_forward(&poll(&[54321, 3001, 3000])), vec![3001]);
    assert!(!forwarder.is_eligible(54321));
    assert!(forwarder.is_eligible(54322));
}

#[test]
fn privileged_ports_are_never_forwarded() {
    let forwarder = AutoPortForwarder::start(vec![]);
    assert!(forwarder.ports_to_forward(&poll(&[0, 1, 22, 80, 443, 1023, 1024])).is_empty());
    assert_eq!(forwarder.ports_to_forward(&poll(&[1024, 1025])), vec![1025]);
    assert!(!forwarder.is_eligible(1024));
    assert!(forwarder.is_eligible(1025));
    assert!(forwarder.is_eligible(65535));
}

#[test]
fn a_port_is_asked_for_once_and_in_listing_order() {
    let forwarder = AutoPortForwarder::start(vec![]);
    assert_eq!(
        forwarder.ports_to_forward(&poll(&[9000, 8000, 9000, 7000, 8000])),
        vec![9000, 8000, 7000]
    );
}

#[test]
fn a_failed_poll_changes_nothing() {
    let mut forwarder = AutoPortForwarder::start(vec![]);
    assert!(forwarder.record_forward(3000, 3000, guard(3000)).is_none());
    assert!(forwarder.ports_to_forward(&failed_poll()).is_empty());
    assert!(forwarder.retire_closed(&failed_poll()).is_empty());
    assert_eq!(forwarder.len(), 1);
    assert!(forwarder.is_forwarded(3000));
}

#[test]
fn a_forwarded_port_is_not_asked_for_again() {
    let mut forwarder = AutoPortForwarder::start(vec![]);
    assert!(forwarder.record_forward(3000, 50001, guard(50001)).is_none());
    assert_eq!(forwarder.ports_to_forward(&poll(&[3000, 4000])), vec![4000]);
}

#[test]
fn a_port_that_may_not_be_forwarded_is_refused() {
    let mut forwarder = AutoPortForwarder::start(vec![54321]);
    let refused = forwarder.record_forward(54321, 54321, guard(54321)).unwrap();
    assert_eq!(refused.container_name(), "dockim-abc123-relay-54321");
    assert!(forwarder.record_forward(80, 80, guard(80)).is_some());
    assert!(forwarder.record_forward(1024, 1024, guard(1024)).is_some());
    assert_eq!(forwarder.len(), 0);
    assert!(forwarder.record_forward(3000, 3000, guard(3000)).is_none());
    let twice = forwarder.record_forward(3000, 50002, guard(50002)).unwrap();
    assert_eq!(twice.container_name(), "dockim-abc123-relay-50002");
    assert_eq!(forwarder.len(), 1);
}

#[test]
fn closed_ports_are_retired_in_order() {
    let mut forwarder = AutoPortForwarder::start(vec![]);
    for port in [3000u16, 4000, 5000, 6000] {
        assert!(forwarder.record_forward(port, port + 1, guard(port + 1)).is_none());
    }
    let closed = forwarder.retire_closed(&poll(&[6000, 4000]));
    assert_eq!(closed_ports(&closed), vec![(3000, 3001), (5000, 5001)]);
    assert_eq!(closed[0].guard.container_name(), "dockim-abc123-relay-3001");
    assert_eq!(forwarder.len(), 2);
    assert!(forwarder.is_forwarded(4000));
    assert!(forwarder.is_forwarded(6000));
    assert!(!forwarder.is_forwarded(3000));
    assert!(!forwarder.is_forwarded(5000));
    assert!(forwarder.retire_closed(&poll(&[6000, 4000])).is_empty());
    let rest = forwarder.retire_closed(&poll(&[]));
    assert_eq!(closed_ports(&rest), vec![(4000, 4001), (6000, 6001)]);
    assert_eq!(forwarder.len(), 0);
}

#[test]
fn shutdown_hands_out_every_guard_once() {
    let mut forwarder = AutoPortForwarder::start(vec![]);
    for port in [3000u16, 4000, 5000] {
        assert!(forwarder.record_forward(port, port, guard(port)).is_none());
    }
    let guards = forwarder.shutdown();
    let names: Vec<&str> = guards.iter().map(|g| g.container_name()).collect();
    assert_eq!(
        names,
        vec![
            "dockim-abc123-relay-3000",
            "dockim-abc123-relay-4000",
            "dockim-abc123-relay-5000",
        ]
    );
    assert_eq!(forwarder.len(), 0);
    assert!(forwarder.shutdown().is_empty());
    let stops: Vec<Vec<String>> = guards.into_iter().map(|g| g.stop_args()).collect();
    assert_eq!(stops.len(), 3);
    assert_eq!(stops[1], vec!["docker", "stop", "dockim-abc123-relay-4000"]);
}

#[test]
fn discovery_forwards_and_unforwards_as_ports_come_and_go() {
    let mut forwarder = AutoPortForwarder::start(vec![54321]);
    let first = poll(&[3000, 54321, 80]);
    let wanted = forwarder.ports_to_forward(&first);
    assert_eq!(wanted, vec![3000]);
    let host_port = choose_host_port(3000, &|_p: u16| true);
    assert!(forwarder.record_forward(3000, host_port, guard(host_port)).is_none());
    assert!(forwarder.retire_closed(&first).is_empty());
    assert_eq!(forwarder.len(), 1);

    let second = poll(&[54321, 80]);
    assert!(forwarder.ports_to_forward(&second).is_empty());
    let closed = forwarder.retire_closed(&second);
    assert_eq!(closed_ports(&closed), vec![(3000, host_port)]);
    assert_eq!(forwarder.len(), 0);
}

#[test]
fn a_port_that_reappears_within_one_poll_is_kept() {
    let mut forwarder = AutoPortForwarder::start(vec![]);
    assert!(forwarder.record_forward(3000, 3000, guard(3000)).is_none());
    let listening = poll(&[3000, 4000]);
    assert_eq!(forwarder.ports_to_forward(&listening), vec![4000]);
    assert!(forwarder.record_forward(4000, 4000, guard(4000)).is_none());
    assert!(forwarder.retire_closed(&listening).is_empty());
    assert_eq!(forwarder.len(), 2);
}

#[test]
fn the_host_port_is_the_container_port_where_that_is_free() {
    assert_eq!(choose_host_port(3000, &|_p: u16| true), 3000);
    let other = choose_host_port(3000, &|p: u16| p >= 50000);
    assert!((50000..60000).contains(&other));
    assert_eq!(choose_host_port(3000, &|_p: u16| false), 3000);
}

#[test]
fn contains_port_finds_what_is_there() {
    assert!(contains_port(&vec![1, 2, 3], 3));
    assert!(!contains_port(&vec![1, 2, 3], 4));
    assert!(!contains_port(&vec![], 0));
}
