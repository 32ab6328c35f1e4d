use socks5_core::client::{
    check_greeting_reply, encode_client_greeting, encode_connect_request, parse_authority,
    parse_port_digits,
};
use socks5_core::codec::decode_connect_request;
use socks5_core::types::{HostAddr, ProtocolError};

#[test]
fn client_greeting_offers_only_no_auth() {
    assert_eq!(encode_client_greeting(), vec![0x05, 0x01, 0x00]);
}

#[test]
fn greeting_reply_check_accepts_no_auth() {
    assert!(check_greeting_reply(&vec![0x05, 0x00]).is_ok());
}

#[test]
fn greeting_reply_check_rejects_failures() {
    assert_eq!(
        check_greeting_reply(&vec![0x05]),
        Err(ProtocolError::Truncated)
    );
    assert_eq!(
        check_greeting_reply(&vec![0x04, 0x00]),
        Err(ProtocolError::BadVersion)
    );
    assert_eq!(
        check_greeting_reply(&vec![0x05, 0xFF]),
        Err(ProtocolError::NoAcceptableAuthMethod)
    );
}

#[test]
fn connect_request_for_domain_destination() {
    let request = encode_connect_request(&HostAddr::Domain(b"test".to_vec()), 8080);
    let mut expected = vec![0x05, 0x01, 0x00, 0x03, 0x04];
    expected.extend_from_slice(b"test");
    expected.extend_from_slice(&[0x1F, 0x90]);
    assert_eq!(request, expected);
}

#[test]
fn connect_request_for_ipv4_destination() {
    let request = encode_connect_request(&HostAddr::V4(127, 0, 0, 1), 80);
    assert_eq!(
        request,
        vec![0x05, 0x01, 0x00, 0x01, 127, 0, 0, 1, 0x00, 0x50]
    );
}

#[test]
fn client_request_parses_on_the_server() {
    let request = encode_connect_request(&HostAddr::Domain(b"example.com".to_vec()), 443);
    let (decoded, used) = decode_connect_request(&request).unwrap();
    match decoded.addr {
        HostAddr::Domain(h) => assert_eq!(h, b"example.com".to_vec()),
        _ => panic!("expected a domain destination"),
    }
    assert_eq!(decoded.port, 443);
    assert_eq!(used, request.len());
}

#[test]
fn authority_without_port_defaults_to_80() {
    let target = parse_authority(&b"example.com".to_vec()).unwrap();
    match target.addr {
        HostAddr::Domain(h) => assert_eq!(h, b"example.com".to_vec()),
        _ => panic!("expected a domain destination"),
    }
    assert_eq!(target.port, 80);
}

#[test]
fn authority_with_port_uses_it() {
    let target = parse_authority(&b"example.com:8080".to_vec()).unwrap();
    match target.addr {
        HostAddr::Domain(h) => assert_eq!(h, b"example.com".to_vec()),
        _ => panic!("expected a domain destination"),
    }
    assert_eq!(target.port, 8080);
}

#[test]
fn authority_rejects_malformed_forms() {
    assert!(parse_authority(&b"".to_vec()).is_none());
    assert!(parse_authority(&b":80".to_vec()).is_none());
    assert!(parse_authority(&b"host:".to_vec()).is_none());
    assert!(parse_authority(&b"host:http".to_vec()).is_none());
    assert!(parse_authority(&b"host:65536".to_vec()).is_none());
    let long = vec![b'a'; 256];
    assert!(parse_authority(&long).is_none());
}

#[test]
fn authority_accepts_boundary_values() {
    let target = parse_authority(&b"h:65535".to_vec()).unwrap();
    assert_eq!(target.port, 65535);
    let long = vec![b'a'; 255];
    let target = parse_authority(&long).unwrap();
    match target.addr {
        HostAddr::Domain(h) => assert_eq!(h.len(), 255),
        _ => panic!("expected a domain destination"),
    }
}

#[test]
fn port_digits_read_as_decimal() {
    assert_eq!(parse_port_digits(&b"80".to_vec()), Some(80));
    assert_eq!(parse_port_digits(&b"00080".to_vec()), Some(80));
    assert_eq!(parse_port_digits(&b"65535".to_vec()), Some(65535));
    assert_eq!(parse_port_digits(&b"65536".to_vec()), None);
    assert_eq!(parse_port_digits(&b"".to_vec()), None);
    assert_eq!(parse_port_digits(&b"8a".to_vec()), None);
}
