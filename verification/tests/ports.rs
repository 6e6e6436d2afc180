use dockim::port::{
    after_probe, find_random_available_port, parse_port, port_text, preferred_or_fallback,
    push_decimal, random_candidate, resolve_host_port, PortError, SearchStep, MAX_ATTEMPTS,
    RANDOM_PORT_END, RANDOM_PORT_MIN,
};
use std::cell::Cell;

#[test]
fn random_candidates_lie_in_the_range() {
    for _ in 0..2000 {
        let candidate = random_candidate();
        assert!((50000..60000).contains(&candidate));
    }
    assert_eq!(RANDOM_PORT_MIN, 50000);
    assert_eq!(RANDOM_PORT_END, 60000);
}

#[test]
fn random_candidates_differ() {
    let first = random_candidate();
    assert!((0..200).any(|_| random_candidate() != first));
}

#[test]
fn the_first_free_candidate_is_taken() {
    let asked = Cell::new(0u32);
    let found = find_random_available_port(&|_p: u16| {
        asked.set(asked.get() + 1);
        true
    });
    let port = found.unwrap();
    assert!((50000..60000).contains(&port));
    assert_eq!(asked.get(), 1);
}

#[test]
fn the_search_gives_up_after_a_thousand_attempts() {
    let asked = Cell::new(0u32);
    let found = find_random_available_port(&|_p: u16| {
        asked.set(asked.get() + 1);
        false
    });
    assert_eq!(found, Err(PortError::ExhaustedAttempts));
    assert_eq!(asked.get(), 1000);
    assert_eq!(MAX_ATTEMPTS, 1000);
}

#[test]
fn the_port_that_is_found_was_probed_free() {
    let found = find_random_available_port(&|p: u16| p % 2 == 1).unwrap();
    assert_eq!(found % 2, 1);
    assert!((50000..60000).contains(&found));
}

#[test]
fn the_search_step_follows_the_probe() {
    assert_eq!(after_probe(50001, true, 1), SearchStep::Found(50001));
    assert_eq!(after_probe(50001, true, 1000), SearchStep::Found(50001));
    assert_eq!(after_probe(50001, false, 1), SearchStep::Retry);
    assert_eq!(after_probe(50001, false, 999), SearchStep::Retry);
    assert_eq!(after_probe(50001, false, 1000), SearchStep::Exhausted);
}

#[test]
fn a_free_preferred_port_is_kept() {
    assert_eq!(preferred_or_fallback(3000, &|_p: u16| true), 3000);
    assert_eq!(resolve_host_port(3000, true, Ok(50500)), 3000);
    assert_eq!(resolve_host_port(3000, true, Err(PortError::ExhaustedAttempts)), 3000);
}

#[test]
fn a_taken_preferred_port_falls_back_to_the_random_range() {
    let port = preferred_or_fallback(3000, &|p: u16| p != 3000);
    assert_ne!(port, 3000);
    assert!((50000..60000).contains(&port));
    assert_eq!(resolve_host_port(3000, false, Ok(50500)), 50500);
}

#[test]
fn without_any_free_port_the_preferred_one_is_returned() {
    assert_eq!(preferred_or_fallback(3000, &|_p: u16| false), 3000);
    assert_eq!(resolve_host_port(3000, false, Err(PortError::ExhaustedAttempts)), 3000);
}

#[test]
fn port_text_is_the_decimal_notation() {
    assert_eq!(port_text(0), "0");
    assert_eq!(port_text(7), "7");
    assert_eq!(port_text(10), "10");
    assert_eq!(port_text(1024), "1024");
    assert_eq!(port_text(54321), "54321");
    assert_eq!(port_text(65535), "65535");
    for port in [0u16, 1, 9, 10, 99, 100, 999, 1000, 9999, 10000, 60000, 65535] {
        assert_eq!(port_text(port), port.to_string());
    }
}

#[test]
fn numbers_are_written_in_decimal_notation() {
    for n in [0u64, 5, 10, 4294967295, 18446744073709551615] {
        let mut out = vec!['#'];
        push_decimal(&mut out, n);
        let text: String = out.into_iter().collect();
        assert_eq!(text, format!("#{n}"));
    }
}

#[test]
fn ports_are_read_as_the_standard_library_reads_them() {
    for text in [
        "", "0", "80", "+80", "-80", "+", "65535", "65536", "0065535", "99999999999", "8 0",
        " 80", "80 ", "8o", "++1", "54321", "０",
    ] {
        assert_eq!(parse_port(text), text.parse::<u16>().ok(), "port {text:?}");
    }
}

#[test]
fn a_port_that_was_written_is_read_back() {
    for port in [0u16, 1, 9, 10, 1024, 1025, 54321, 65535] {
        assert_eq!(parse_port(&port_text(port)), Some(port));
    }
}
