//! The client side of the handshake, used by the HTTP bridge: build the
//! greeting and the CONNECT request, check the server's answers, and
//! turn an HTTP authority (`host[:port]`) into a destination.

use vstd::prelude::*;
use crate::types::{
    ProtocolError, HostAddr, AddrModel, ConnectRequest, addr_wf,
    SOCKS_VERSION, METHOD_NO_AUTH, CMD_CONNECT, RESERVED, ATYP_V4, ATYP_DOMAIN, ATYP_V6,
};
use crate::codec::{addr_bytes, port_hi, port_lo, append_bytes, copy_range};

verus! {

pub const COLON: u8 = 0x3A;
pub const DIGIT_ZERO: u8 = 0x30;
pub const DIGIT_NINE: u8 = 0x39;
pub const DEFAULT_HTTP_PORT: u16 = 80;

/// The greeting this client sends: version, one method, "no authentication".
pub open spec fn client_greeting_bytes() -> Seq<u8> {
    seq![SOCKS_VERSION, 1u8, METHOD_NO_AUTH]
}

/// The CONNECT request layout this client sends for a destination.
pub open spec fn request_bytes(addr: AddrModel, port: u16) -> Seq<u8> {
    seq![SOCKS_VERSION, CMD_CONNECT, RESERVED] + addr_bytes(addr) + seq![port_hi(port), port_lo(port)]
}

/// Encodes the greeting that offers only "no authentication".
pub fn encode_client_greeting() -> (r: Vec<u8>)
    ensures
        r@ == client_greeting_bytes(),
{
    let mut out: Vec<u8> = Vec::new();
    out.push(SOCKS_VERSION);
    out.push(1);
    out.push(METHOD_NO_AUTH);
    assert(out@ =~= client_greeting_bytes());
    out
}

/// Checks the server's two-byte greeting reply: the version must echo
/// 0x05 and the chosen method must be "no authentication".
pub fn check_greeting_reply(bytes: &Vec<u8>) -> (r: Result<(), ProtocolError>)
    ensures
        r is Ok <==> bytes@.len() >= 2 && bytes@[0] == SOCKS_VERSION && bytes@[1] == METHOD_NO_AUTH,
        r matches Err(e) ==> (if bytes@.len() < 2 {
            e is Truncated
        } else if bytes@[0] != SOCKS_VERSION {
            e is BadVersion
        } else {
            e is NoAcceptableAuthMethod
        }),
{
    if bytes.len() < 2 {
        Err(ProtocolError::Truncated)
    } else if bytes[0] != SOCKS_VERSION {
        Err(ProtocolError::BadVersion)
    } else if bytes[1] != METHOD_NO_AUTH {
        Err(ProtocolError::NoAcceptableAuthMethod)
    } else {
        Ok(())
    }
}

/// Encodes a CONNECT request for a destination.
pub fn encode_connect_request(addr: &HostAddr, port: u16) -> (r: Vec<u8>)
    requires
        addr_wf(addr@),
    ensures
        r@ == request_bytes(addr@, port),
{
    let mut out: Vec<u8> = Vec::new();
    out.push(SOCKS_VERSION);
    out.push(CMD_CONNECT);
    out.push(RESERVED);
    match addr {
        HostAddr::V4(a, b, c, d) => {
            out.push(ATYP_V4);
            out.push(*a);
            out.push(*b);
            out.push(*c);
            out.push(*d);
        }
        HostAddr::Domain(h) => {
            out.push(ATYP_DOMAIN);
            out.push(h.len() as u8);
            append_bytes(&mut out, h);
        }
        HostAddr::V6(h) => {
            out.push(ATYP_V6);
            append_bytes(&mut out, h);
        }
    }
    out.push((port / 256) as u8);
    out.push((port % 256) as u8);
    assert(out@ =~= request_bytes(addr@, port));
    out
}

/// The index of the first colon in `s`, if there is one.
pub open spec fn first_colon(s: Seq<u8>) -> Option<int>
    decreases s.len(),
{
    if s.len() == 0 {
        None
    } else if s[0] == COLON {
        Some(0)
    } else {
        match first_colon(s.skip(1)) {
            Some(i) => Some(i + 1),
            None => None,
        }
    }
}

/// True iff `b` is an ASCII decimal digit.
pub open spec fn is_digit(b: u8) -> bool {
    DIGIT_ZERO <= b <= DIGIT_NINE
}

/// True iff every byte of `s` is an ASCII decimal digit.
pub open spec fn all_digits(s: Seq<u8>) -> bool {
    forall|i: int| 0 <= i < s.len() ==> is_digit(#[trigger] s[i])
}

/// The value of `s` read as a decimal numeral, most significant digit first.
pub open spec fn dec_value(s: Seq<u8>) -> int
    decreases s.len(),
{
    if s.len() == 0 {
        0
    } else {
        dec_value(s.drop_last()) * 10 + (s.last() - DIGIT_ZERO)
    }
}

/// What a port numeral yields: its value, when `s` is one or more
/// decimal digits naming a value that fits sixteen bits.
pub open spec fn port_digits_model(s: Seq<u8>) -> Option<u16> {
    if s.len() >= 1 && all_digits(s) && dec_value(s) <= 65535 {
        Some(dec_value(s) as u16)
    } else {
        None
    }
}

/// What an authority `host[:port]` yields: the host bytes before the
/// first colon (the whole authority if there is none) and the decimal
/// port after it (80 if there is none). The host must be one to 255
/// bytes, so it fits the request's length prefix.
pub open spec fn authority_model(s: Seq<u8>) -> Option<(Seq<u8>, u16)> {
    match first_colon(s) {
        None => if 1 <= s.len() <= 255 {
            Some((s, DEFAULT_HTTP_PORT))
        } else {
            None
        },
        Some(i) => {
            let host = s.subrange(0, i);
            if 1 <= host.len() <= 255 {
                match port_digits_model(s.skip(i + 1)) {
                    Some(p) => Some((host, p)),
                    None => None,
                }
            } else {
                None
            }
        },
    }
}

proof fn lemma_first_colon_at(s: Seq<u8>, i: int)
    requires
        0 <= i < s.len(),
        s[i] == COLON,
        forall|j: int| 0 <= j < i ==> s[j] != COLON,
    ensures
        first_colon(s) == Some(i),
    decreases i,
{
    if i > 0 {
        let t = s.skip(1);
        assert forall|j: int| 0 <= j < i - 1 implies t[j] != COLON by {
            assert(t[j] == s[j + 1]);
        }
        assert(t[i - 1] == s[i]);
        lemma_first_colon_at(t, i - 1);
    }
}

proof fn lemma_first_colon_none(s: Seq<u8>)
    requires
        forall|j: int| 0 <= j < s.len() ==> s[j] != COLON,
    ensures
        first_colon(s) is None,
    decreases s.len(),
{
    if s.len() > 0 {
        let t = s.skip(1);
        assert forall|j: int| 0 <= j < t.len() implies t[j] != COLON by {
            assert(t[j] == s[j + 1]);
        }
        lemma_first_colon_none(t);
    }
}

proof fn lemma_dec_value_nonneg(s: Seq<u8>)
    requires
        all_digits(s),
    ensures
        dec_value(s) >= 0,
    decreases s.len(),
{
    if s.len() > 0 {
        assert(is_digit(s[s.len() - 1]));
        lemma_dec_value_nonneg(s.drop_last());
    }
}

proof fn lemma_dec_value_prefix(s: Seq<u8>, i: int)
    requires
        all_digits(s),
        0 <= i <= s.len(),
    ensures
        dec_value(s.subrange(0, i)) <= dec_value(s),
    decreases s.len() - i,
{
    if i == s.len() {
        assert(s.subrange(0, i) =~= s);
    } else {
        let t = s.subrange(0, i + 1);
        assert(t.drop_last() =~= s.subrange(0, i));
        assert(is_digit(s[i]));
        assert(all_digits(s.subrange(0, i)));
        lemma_dec_value_nonneg(s.subrange(0, i));
        assert(dec_value(t) == dec_value(s.subrange(0, i)) * 10 + (s[i] - DIGIT_ZERO));
        lemma_dec_value_prefix(s, i + 1);
    }
}

/// Reads `digits` as a decimal port numeral.
pub fn parse_port_digits(digits: &Vec<u8>) -> (r: Option<u16>)
    ensures
        r == port_digits_model(digits@),
{
    if digits.len() == 0 {
        return None;
    }
    let mut value: u32 = 0;
    let mut i: usize = 0;
    while i < digits.len()
        invariant
            1 <= digits@.len(),
            i <= digits@.len(),
            value == dec_value(digits@.subrange(0, i as int)),
            value <= 65535,
            all_digits(digits@.subrange(0, i as int)),
        decreases digits@.len() - i,
    {
        let b = digits[i];
        if b < DIGIT_ZERO || b > DIGIT_NINE {
            assert(!is_digit(digits@[i as int]));
            return None;
        }
        let next: u32 = value * 10 + ((b - DIGIT_ZERO) as u32);
        proof {
            let t = digits@.subrange(0, i + 1);
            assert(t.drop_last() =~= digits@.subrange(0, i as int));
            assert(t.last() == digits@[i as int]);
            assert(all_digits(t));
        }
        if next > 65535 {
            proof {
                if all_digits(digits@) {
                    lemma_dec_value_prefix(digits@, i + 1);
                }
            }
            return None;
        }
        value = next;
        i = i + 1;
    }
    proof {
        assert(digits@.subrange(0, digits@.len() as int) =~= digits@);
    }
    Some(value as u16)
}

/// Finds the first colon of `s`, witnessing the `first_colon` spec.
fn find_colon(s: &Vec<u8>) -> (r: Option<usize>)
    ensures
        r matches Some(i) ==> i < s@.len() && first_colon(s@) == Some(i as int),
        r is None ==> first_colon(s@) is None,
{
    let mut i: usize = 0;
    while i < s.len()
        invariant
            i <= s@.len(),
            forall|j: int| 0 <= j < i ==> s@[j] != COLON,
        decreases s@.len() - i,
    {
        if s[i] == COLON {
            proof {
                lemma_first_colon_at(s@, i as int);
            }
            return Some(i);
        }
        i = i + 1;
    }
    proof {
        lemma_first_colon_none(s@);
    }
    None
}

/// Splits an authority `host[:port]` into the destination it names:
/// the host as a domain-type address and the port (80 when absent).
/// Returns `None` when the host is empty or longer than 255 bytes, or
/// the port numeral is missing, malformed or too large.
pub fn parse_authority(authority: &Vec<u8>) -> (r: Option<ConnectRequest>)
    ensures
        r matches Some(t) ==> authority_model(authority@) matches Some(m)
            && t.addr@ == AddrModel::Domain(m.0) && t.port == m.1,
        r is None ==> authority_model(authority@) is None,
{
    let n = authority.len();
    match find_colon(authority) {
        None => {
            if n < 1 || n > 255 {
                return None;
            }
            let host = copy_range(authority, 0, n);
            proof {
                assert(host@ =~= authority@);
            }
            Some(ConnectRequest { addr: HostAddr::Domain(host), port: DEFAULT_HTTP_PORT })
        }
        Some(c) => {
            if c < 1 || c > 255 {
                return None;
            }
            let digits = copy_range(authority, c + 1, n - (c + 1));
            proof {
                assert(digits@ =~= authority@.skip(c + 1));
            }
            match parse_port_digits(&digits) {
                Some(p) => {
                    let host = copy_range(authority, 0, c);
                    Some(ConnectRequest { addr: HostAddr::Domain(host), port: p })
                }
                None => None,
            }
        }
    }
}

} // verus!
