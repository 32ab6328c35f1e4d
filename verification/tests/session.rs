use socks5_core::negotiate::{negotiate_greeting, offers_no_auth, GreetingOutcome};
use socks5_core::relay::RelayState;
use socks5_core::session::run_session;
use socks5_core::types::{HostAddr, ProtocolError};

#[test]
fn greeting_with_no_auth_is_accepted() {
    let outcome = negotiate_greeting(&vec![0x05, 0x01, 0x00]);
    match outcome {
        GreetingOutcome::Accepted { reply, used } => {
            assert_eq!(reply, vec![0x05, 0x00]);
            assert_eq!(used, 3);
        }
        _ => panic!("greeting offering method 0x00 must be accepted"),
    }
}

#[test]
fn greeting_selects_no_auth_among_many() {
    let outcome = negotiate_greeting(&vec![0x05, 0x03, 0x02, 0x01, 0x00]);
    match outcome {
        GreetingOutcome::Accepted { reply, used } => {
            assert_eq!(reply, vec![0x05, 0x00]);
            assert_eq!(used, 5);
        }
        _ => panic!("greeting offering method 0x00 must be accepted"),
    }
}

#[test]
fn greeting_without_no_auth_is_refused() {
    let outcome = negotiate_greeting(&vec![0x05, 0x02, 0x01, 0x02]);
    match outcome {
        GreetingOutcome::Refused { reply } => {
            assert_eq!(reply, vec![0x05, 0xFF]);
        }
        _ => panic!("greeting without method 0x00 must be refused"),
    }
}

#[test]
fn greeting_with_wrong_version_sends_nothing() {
    let outcome = negotiate_greeting(&vec![0x04, 0x01, 0x00]);
    match outcome {
        GreetingOutcome::Invalid { error } => {
            assert_eq!(error, ProtocolError::BadVersion);
        }
        _ => panic!("a non-SOCKS5 greeting must be rejected without a reply"),
    }
}

#[test]
fn method_scan_finds_no_auth() {
    assert!(offers_no_auth(&vec![0x02, 0x00, 0x01]));
    assert!(!offers_no_auth(&vec![0x02, 0x01]));
    assert!(!offers_no_auth(&vec![]));
}

#[test]
fn session_connect_to_ipv4_echoes_request() {
    let input = vec![
        0x05, 0x01, 0x00, // greeting
        0x05, 0x01, 0x00, 0x01, 0x7F, 0x00, 0x00, 0x01, 0x00, 0x50, // CONNECT 127.0.0.1:80
    ];
    let result = run_session(&input);
    let mut expected = vec![0x05, 0x00];
    expected.extend_from_slice(&[0x05, 0x00, 0x00, 0x01, 0x7F, 0x00, 0x00, 0x01, 0x00, 0x50]);
    assert_eq!(result.replies, expected);
    assert_eq!(result.used, 13);
    assert!(result.error.is_none());
    let target = result.target.expect("a destination must be resolved");
    match target.addr {
        HostAddr::V4(a, b, c, d) => assert_eq!((a, b, c, d), (127, 0, 0, 1)),
        _ => panic!("expected an IPv4 destination"),
    }
    assert_eq!(target.port, 80);
}

#[test]
fn session_leaves_relay_bytes_unconsumed() {
    let mut input = vec![
        0x05, 0x01, 0x00, 0x05, 0x01, 0x00, 0x01, 0x7F, 0x00, 0x00, 0x01, 0x00, 0x50,
    ];
    input.extend_from_slice(b"GET / HTTP/1.1\r\n");
    let result = run_session(&input);
    assert_eq!(result.used, 13);
    assert!(result.target.is_some());
}

#[test]
fn session_connect_to_domain_echoes_request() {
    let mut input = vec![0x05, 0x01, 0x00, 0x05, 0x01, 0x00, 0x03, 0x04];
    input.extend_from_slice(b"test");
    input.extend_from_slice(&[0x1F, 0x90]);
    let result = run_session(&input);
    let mut expected = vec![0x05, 0x00, 0x05, 0x00, 0x00, 0x03, 0x04];
    expected.extend_from_slice(b"test");
    expected.extend_from_slice(&[0x1F, 0x90]);
    assert_eq!(result.replies, expected);
    let target = result.target.expect("a destination must be resolved");
    match target.addr {
        HostAddr::Domain(h) => assert_eq!(h, b"test".to_vec()),
        _ => panic!("expected a domain destination"),
    }
    assert_eq!(target.port, 8080);
}

#[test]
fn session_ipv6_request_resolves_nothing() {
    let mut input = vec![0x05, 0x01, 0x00, 0x05, 0x01, 0x00, 0x04];
    input.extend_from_slice(&[0; 16]);
    input.extend_from_slice(&[0x00, 0x50]);
    let result = run_session(&input);
    assert_eq!(result.replies, vec![0x05, 0x00]);
    assert!(result.target.is_none());
    assert_eq!(result.error, Some(ProtocolError::UnsupportedAddressType));
}

#[test]
fn session_bad_version_writes_nothing() {
    let result = run_session(&vec![0x04, 0x01, 0x00]);
    assert!(result.replies.is_empty());
    assert!(result.target.is_none());
    assert_eq!(result.error, Some(ProtocolError::BadVersion));
}

#[test]
fn session_no_acceptable_method_refuses() {
    let result = run_session(&vec![0x05, 0x01, 0x01]);
    assert_eq!(result.replies, vec![0x05, 0xFF]);
    assert!(result.target.is_none());
    assert_eq!(result.error, Some(ProtocolError::NoAcceptableAuthMethod));
}

#[test]
fn session_repeats_identically() {
    let input = vec![
        0x05, 0x01, 0x00, 0x05, 0x01, 0x00, 0x01, 0x7F, 0x00, 0x00, 0x01, 0x00, 0x50,
    ];
    let first = run_session(&input);
    let second = run_session(&input);
    assert_eq!(first.replies, second.replies);
    assert_eq!(first.used, second.used);
    assert_eq!(first.target.is_some(), second.target.is_some());
}

#[test]
fn relay_starts_fully_open() {
    let state = RelayState::start();
    assert!(state.client_read_open && state.client_write_open);
    assert!(state.dest_read_open && state.dest_write_open);
    assert!(!state.forward_done && !state.backward_done);
    assert!(!state.is_complete());
}

#[test]
fn relay_destination_eof_half_closes() {
    let mut state = RelayState::start();
    let plan = state.on_backward_end();
    assert!(plan.close_client_write && plan.close_dest_read);
    assert!(!plan.close_client_read && !plan.close_dest_write);
    assert!(!state.client_write_open && !state.dest_read_open);
    assert!(state.client_read_open && state.dest_write_open);
    assert!(state.backward_done && !state.forward_done);
    assert!(!state.is_complete());
}

#[test]
fn relay_client_eof_half_closes() {
    let mut state = RelayState::start();
    let plan = state.on_forward_end();
    assert!(plan.close_client_read && plan.close_dest_write);
    assert!(!plan.close_client_write && !plan.close_dest_read);
    assert!(!state.client_read_open && !state.dest_write_open);
    assert!(state.client_write_open && state.dest_read_open);
    assert!(state.forward_done && !state.backward_done);
}

#[test]
fn relay_completes_after_both_directions_end() {
    let mut state = RelayState::start();
    state.on_forward_end();
    state.on_backward_end();
    assert!(state.is_complete());
    assert!(!state.client_read_open && !state.client_write_open);
    assert!(!state.dest_read_open && !state.dest_write_open);
}
