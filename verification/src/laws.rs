//! The library's laws: properties that hold of every input, stated over
//! the spec models that the executable functions' contracts use, and
//! proved here once and for all.

use vstd::prelude::*;
use crate::types::{
    ProtocolError, AddrModel, addr_wf,
    SOCKS_VERSION, METHOD_NO_AUTH, CMD_CONNECT, ATYP_V4, ATYP_DOMAIN,
};
use crate::codec::{
    be16, port_hi, port_lo, request_model, reply_model, reply_bytes,
    handshake_reply_bytes, RequestModel,
};
use crate::negotiate::{negotiation_model, greeting_reply_model};
use crate::session::{session_model};
use crate::client::{request_bytes};
use crate::relay::{RelayState, backward_end_transition};

verus! {

/// Every valid greeting that offers "no authentication" among one to
/// 255 method bytes is answered with exactly `[0x05, 0x00]`.
pub proof fn lemma_greeting_selects_no_auth(s: Seq<u8>)
    requires
        s.len() >= 2,
        s[0] == SOCKS_VERSION,
        1 <= s[1],
        s.len() >= 2 + s[1],
        s.subrange(2, 2 + s[1] as int).contains(METHOD_NO_AUTH),
    ensures
        negotiation_model(s) == Ok::<int, ProtocolError>(2 + s[1] as int),
        greeting_reply_model(s) == seq![SOCKS_VERSION, METHOD_NO_AUTH],
{
    assert(greeting_reply_model(s) =~= handshake_reply_bytes(METHOD_NO_AUTH));
}

/// A greeting whose version byte is not 0x05 rejects the session before
/// any reply: the server writes nothing and resolves no destination.
pub proof fn lemma_bad_version_silent(s: Seq<u8>)
    requires
        s.len() >= 1,
        s[0] != SOCKS_VERSION,
    ensures
        negotiation_model(s) == Err::<int, ProtocolError>(ProtocolError::BadVersion),
        greeting_reply_model(s) == Seq::<u8>::empty(),
        session_model(s).replies == Seq::<u8>::empty(),
        session_model(s).target is None,
        session_model(s).failure == Some(ProtocolError::BadVersion),
{
    assert(greeting_reply_model(s) =~= Seq::<u8>::empty());
}

/// A CONNECT request with the IPv4 address type and trailing bytes
/// `[a, b, c, d, p1, p2]` resolves to the destination `a.b.c.d` at port
/// `p1 * 256 + p2`.
pub proof fn lemma_connect_ipv4_target(rsv: u8, a: u8, b: u8, c: u8, d: u8, p1: u8, p2: u8)
    ensures
        request_model(seq![SOCKS_VERSION, CMD_CONNECT, rsv, ATYP_V4, a, b, c, d, p1, p2])
            == Ok::<RequestModel, ProtocolError>(RequestModel {
                addr: AddrModel::V4(a, b, c, d),
                port: be16(p1, p2),
                used: 10,
            }),
        be16(p1, p2) == p1 * 256 + p2,
{
}

/// A CONNECT request with the domain address type, length byte `L`, `L`
/// host bytes and two port bytes resolves to exactly that host string
/// and port.
pub proof fn lemma_connect_domain_target(rsv: u8, host: Seq<u8>, p1: u8, p2: u8)
    requires
        host.len() <= 255,
    ensures
        request_model(seq![SOCKS_VERSION, CMD_CONNECT, rsv, ATYP_DOMAIN, host.len() as u8] + host + seq![p1, p2])
            == Ok::<RequestModel, ProtocolError>(RequestModel {
                addr: AddrModel::Domain(host),
                port: be16(p1, p2),
                used: 7 + host.len() as int,
            }),
{
    let s = seq![SOCKS_VERSION, CMD_CONNECT, rsv, ATYP_DOMAIN, host.len() as u8] + host + seq![p1, p2];
    assert(s.len() == 7 + host.len());
    assert(s[4] == host.len() as u8);
    assert(s.subrange(5, 5 + host.len() as int) =~= host);
    assert(s[5 + host.len() as int] == p1);
    assert(s[6 + host.len() as int] == p2);
}

/// Splitting a port into its two wire bytes and reading them back as a
/// big-endian value is the identity.
pub proof fn lemma_port_bytes_round_trip(port: u16)
    ensures
        be16(port_hi(port), port_lo(port)) == port,
{
    assert(port / 256 * 256 + port % 256 == port) by (nonlinear_arith);
}

/// Round trip: encoding a CONNECT reply and decoding the bytes yields
/// the identical code, address and port, consuming the whole encoding.
pub proof fn lemma_reply_round_trip(code: u8, addr: AddrModel, port: u16)
    requires
        addr_wf(addr),
    ensures
        reply_model(reply_bytes(code, addr, port)) matches Ok(m)
            && m.code == code && m.addr == addr && m.port == port
            && m.used == reply_bytes(code, addr, port).len(),
{
    let s = reply_bytes(code, addr, port);
    lemma_port_bytes_round_trip(port);
    match addr {
        AddrModel::V4(a, b, c, d) => {
            assert(s =~= seq![SOCKS_VERSION, code, 0u8, ATYP_V4, a, b, c, d, port_hi(port), port_lo(port)]);
        }
        AddrModel::Domain(h) => {
            assert(s =~= seq![SOCKS_VERSION, code, 0u8, ATYP_DOMAIN, h.len() as u8] + h + seq![port_hi(port), port_lo(port)]);
            assert(s.len() == 7 + h.len());
            assert(s[3] == ATYP_DOMAIN && s[3] != ATYP_V4);
            assert(s[4] == h.len() as u8);
            assert(s.subrange(5, 5 + h.len() as int) =~= h);
            assert(s[5 + h.len() as int] == port_hi(port));
            assert(s[6 + h.len() as int] == port_lo(port));
        }
        AddrModel::V6(h) => {
            assert(s =~= seq![SOCKS_VERSION, code, 0u8, crate::types::ATYP_V6] + h + seq![port_hi(port), port_lo(port)]);
            assert(s.len() == 22);
            assert(s.subrange(4, 20) =~= h);
            assert(s[20] == port_hi(port));
            assert(s[21] == port_lo(port));
        }
    }
}

/// Coherence of the two sides: a CONNECT request built by the tunnel
/// client decodes on the server to the same destination, for the
/// address types a server accepts.
pub proof fn lemma_request_round_trip(addr: AddrModel, port: u16)
    requires
        addr_wf(addr),
        !(addr is V6),
    ensures
        request_model(request_bytes(addr, port)) matches Ok(m)
            && m.addr == addr && m.port == port
            && m.used == request_bytes(addr, port).len(),
{
    let s = request_bytes(addr, port);
    lemma_port_bytes_round_trip(port);
    match addr {
        AddrModel::V4(a, b, c, d) => {
            assert(s =~= seq![SOCKS_VERSION, CMD_CONNECT, 0u8, ATYP_V4, a, b, c, d, port_hi(port), port_lo(port)]);
        }
        AddrModel::Domain(h) => {
            assert(s =~= seq![SOCKS_VERSION, CMD_CONNECT, 0u8, ATYP_DOMAIN, h.len() as u8] + h + seq![port_hi(port), port_lo(port)]);
            assert(s.len() == 7 + h.len());
            assert(s[4] == h.len() as u8);
            assert(s.subrange(5, 5 + h.len() as int) =~= h);
            assert(s[5 + h.len() as int] == port_hi(port));
            assert(s[6 + h.len() as int] == port_lo(port));
        }
        AddrModel::V6(_h) => {
        }
    }
}

/// Half-close: when the destination closes its write side, the ended
/// destination-to-client direction closes the client's write half and
/// the destination's read half, while the client's read half and the
/// destination's write half keep whatever state the still-running
/// client-to-destination direction has them in — in particular, a
/// client read half that was open stays open, so bytes still in flight
/// from the client can drain.
pub proof fn lemma_half_close_keeps_client_read(pre: RelayState, post: RelayState)
    requires
        backward_end_transition(pre, post),
    ensures
        !post.client_write_open,
        !post.dest_read_open,
        post.client_read_open == pre.client_read_open,
        post.dest_write_open == pre.dest_write_open,
        post.forward_done == pre.forward_done,
{
}

/// A well-formed relay session that is complete has closed all four
/// stream halves: nothing is left half-open once both directions have
/// ended.
pub proof fn lemma_complete_relay_all_closed(state: RelayState)
    requires
        state.wf(),
        state.complete(),
    ensures
        !state.client_read_open,
        !state.client_write_open,
        !state.dest_read_open,
        !state.dest_write_open,
{
}

/// Idempotence: the pre-relay replies and the resolved destination are
/// a function of the received bytes alone, so repeating the same
/// greeting and CONNECT sequence on a fresh connection yields the
/// byte-identical reply sequence and the same destination.
pub proof fn lemma_session_deterministic(first: Seq<u8>, second: Seq<u8>)
    requires
        first == second,
    ensures
        session_model(first).replies == session_model(second).replies,
        session_model(first).target == session_model(second).target,
        session_model(first).used == session_model(second).used,
        session_model(first).failure == session_model(second).failure,
{
}

} // verus!
