//! The wire codec: the exact byte layouts of the four SOCKS5 messages,
//! stated as spec functions, and executable encoders and decoders proved
//! against them.

use vstd::prelude::*;
use crate::types::{
    ProtocolError, HostAddr, AddrModel, HandshakeRequest, ConnectRequest, ConnectReply,
    addr_wf, SOCKS_VERSION, CMD_CONNECT, RESERVED, ATYP_V4, ATYP_DOMAIN, ATYP_V6,
};

verus! {

/// The big-endian 16-bit value carried by two port bytes.
pub open spec fn be16(hi: u8, lo: u8) -> u16 {
    (hi * 256 + lo) as u16
}

/// The high byte of a port on the wire.
pub open spec fn port_hi(p: u16) -> u8 {
    (p / 256) as u8
}

/// The low byte of a port on the wire.
pub open spec fn port_lo(p: u16) -> u8 {
    (p % 256) as u8
}

/// What decoding a greeting yields: the offered methods and how many
/// bytes of the input the greeting occupied.
pub struct GreetingModel {
    pub methods: Seq<u8>,
    pub used: int,
}

/// The greeting layout: version 0x05, a method count, then exactly that
/// many method bytes. A wrong version is `BadVersion`; anything shorter
/// than its own framing is `Truncated`.
pub open spec fn greeting_model(s: Seq<u8>) -> Result<GreetingModel, ProtocolError> {
    if s.len() < 1 {
        Err(ProtocolError::Truncated)
    } else if s[0] != SOCKS_VERSION {
        Err(ProtocolError::BadVersion)
    } else if s.len() < 2 || s.len() < 2 + s[1] {
        Err(ProtocolError::Truncated)
    } else {
        Ok(GreetingModel { methods: s.subrange(2, 2 + s[1] as int), used: 2 + s[1] as int })
    }
}

/// What decoding a CONNECT request yields.
pub struct RequestModel {
    pub addr: AddrModel,
    pub port: u16,
    pub used: int,
}

/// The CONNECT request layout: version, command, reserved, address type,
/// then an address whose length the type dictates, then two port bytes.
/// Only CONNECT and the IPv4 and domain address types are accepted.
pub open spec fn request_model(s: Seq<u8>) -> Result<RequestModel, ProtocolError> {
    if s.len() < 1 {
        Err(ProtocolError::Truncated)
    } else if s[0] != SOCKS_VERSION {
        Err(ProtocolError::BadVersion)
    } else if s.len() < 2 {
        Err(ProtocolError::Truncated)
    } else if s[1] != CMD_CONNECT {
        Err(ProtocolError::UnsupportedCommand)
    } else if s.len() < 4 {
        Err(ProtocolError::Truncated)
    } else if s[3] == ATYP_V4 {
        if s.len() < 10 {
            Err(ProtocolError::Truncated)
        } else {
            Ok(RequestModel {
                addr: AddrModel::V4(s[4], s[5], s[6], s[7]),
                port: be16(s[8], s[9]),
                used: 10,
            })
        }
    } else if s[3] == ATYP_DOMAIN {
        if s.len() < 5 || s.len() < 7 + s[4] {
            Err(ProtocolError::Truncated)
        } else {
            Ok(RequestModel {
                addr: AddrModel::Domain(s.subrange(5, 5 + s[4] as int)),
                port: be16(s[5 + s[4] as int], s[6 + s[4] as int]),
                used: 7 + s[4] as int,
            })
        }
    } else {
        Err(ProtocolError::UnsupportedAddressType)
    }
}

/// The two-byte greeting reply `[0x05, method]`.
pub open spec fn handshake_reply_bytes(method: u8) -> Seq<u8> {
    seq![SOCKS_VERSION, method]
}

/// The wire form of an address inside a request or reply: the address
/// type byte, then the address bytes (length-prefixed for a domain).
pub open spec fn addr_bytes(addr: AddrModel) -> Seq<u8> {
    match addr {
        AddrModel::V4(a, b, c, d) => seq![ATYP_V4, a, b, c, d],
        AddrModel::Domain(h) => seq![ATYP_DOMAIN, h.len() as u8] + h,
        AddrModel::V6(h) => seq![ATYP_V6] + h,
    }
}

/// The CONNECT reply layout: version, result code, reserved, then the
/// bound address and two port bytes.
pub open spec fn reply_bytes(code: u8, addr: AddrModel, port: u16) -> Seq<u8> {
    seq![SOCKS_VERSION, code, RESERVED] + addr_bytes(addr) + seq![port_hi(port), port_lo(port)]
}

/// What decoding a CONNECT reply yields.
pub struct ReplyModel {
    pub code: u8,
    pub addr: AddrModel,
    pub port: u16,
    pub used: int,
}

/// The CONNECT reply layout read back: a client must consume exactly as
/// many address bytes as the reply's address type dictates, IPv6 included.
pub open spec fn reply_model(s: Seq<u8>) -> Result<ReplyModel, ProtocolError> {
    if s.len() < 1 {
        Err(ProtocolError::Truncated)
    } else if s[0] != SOCKS_VERSION {
        Err(ProtocolError::BadVersion)
    } else if s.len() < 4 {
        Err(ProtocolError::Truncated)
    } else if s[3] == ATYP_V4 {
        if s.len() < 10 {
            Err(ProtocolError::Truncated)
        } else {
            Ok(ReplyModel {
                code: s[1],
                addr: AddrModel::V4(s[4], s[5], s[6], s[7]),
                port: be16(s[8], s[9]),
                used: 10,
            })
        }
    } else if s[3] == ATYP_DOMAIN {
        if s.len() < 5 || s.len() < 7 + s[4] {
            Err(ProtocolError::Truncated)
        } else {
            Ok(ReplyModel {
                code: s[1],
                addr: AddrModel::Domain(s.subrange(5, 5 + s[4] as int)),
                port: be16(s[5 + s[4] as int], s[6 + s[4] as int]),
                used: 7 + s[4] as int,
            })
        }
    } else if s[3] == ATYP_V6 {
        if s.len() < 22 {
            Err(ProtocolError::Truncated)
        } else {
            Ok(ReplyModel {
                code: s[1],
                addr: AddrModel::V6(s.subrange(4, 20)),
                port: be16(s[20], s[21]),
                used: 22,
            })
        }
    } else {
        Err(ProtocolError::UnsupportedAddressType)
    }
}

/// Copies `bytes[from..from + n]` into a fresh vector.
pub(crate) fn copy_range(bytes: &Vec<u8>, from: usize, n: usize) -> (r: Vec<u8>)
    requires
        from + n <= bytes@.len(),
    ensures
        r@ == bytes@.subrange(from as int, from + n),
{
    let mut out: Vec<u8> = Vec::new();
    let mut i: usize = 0;
    proof {
        assert(bytes.len() == bytes@.len());
    }
    while i < n
        invariant
            from + n <= bytes.len(),
            i <= n,
            out@ == bytes@.subrange(from as int, from + i),
        decreases n - i,
    {
        out.push(bytes[from + i]);
        assert(out@ =~= bytes@.subrange(from as int, from + i + 1));
        i = i + 1;
    }
    out
}

/// Decodes a greeting from the front of `bytes`; trailing bytes are left
/// for the next message. Returns the request and the bytes consumed.
/// The declared method count is enforced exactly: a greeting that
/// announces more methods than it carries is `Truncated`, never read
/// leniently.
pub fn decode_handshake(bytes: &Vec<u8>) -> (r: Result<(HandshakeRequest, usize), ProtocolError>)
    ensures
        r matches Ok((req, used)) ==> greeting_model(bytes@) matches Ok(m)
            && req.methods@ == m.methods && used == m.used,
        r matches Err(e) ==> greeting_model(bytes@) matches Err(m) && e == m,
{
    if bytes.len() < 1 {
        return Err(ProtocolError::Truncated);
    }
    if bytes[0] != SOCKS_VERSION {
        return Err(ProtocolError::BadVersion);
    }
    if bytes.len() < 2 {
        return Err(ProtocolError::Truncated);
    }
    let count = bytes[1] as usize;
    if bytes.len() < 2 + count {
        return Err(ProtocolError::Truncated);
    }
    let methods = copy_range(bytes, 2, count);
    Ok((HandshakeRequest { methods }, 2 + count))
}

/// Encodes the greeting reply `[0x05, method]`.
pub fn encode_handshake_reply(method: u8) -> (r: Vec<u8>)
    ensures
        r@ == handshake_reply_bytes(method),
{
    let mut out: Vec<u8> = Vec::new();
    out.push(SOCKS_VERSION);
    out.push(method);
    assert(out@ =~= handshake_reply_bytes(method));
    out
}

/// Decodes a CONNECT request from the front of `bytes`; trailing bytes
/// are left for the relay. Returns the request and the bytes consumed.
pub fn decode_connect_request(bytes: &Vec<u8>) -> (r: Result<(ConnectRequest, usize), ProtocolError>)
    ensures
        r matches Ok((req, used)) ==> request_model(bytes@) matches Ok(m)
            && req.addr@ == m.addr && req.port == m.port && used == m.used,
        r matches Err(e) ==> request_model(bytes@) matches Err(m) && e == m,
{
    if bytes.len() < 1 {
        return Err(ProtocolError::Truncated);
    }
    if bytes[0] != SOCKS_VERSION {
        return Err(ProtocolError::BadVersion);
    }
    if bytes.len() < 2 {
        return Err(ProtocolError::Truncated);
    }
    if bytes[1] != CMD_CONNECT {
        return Err(ProtocolError::UnsupportedCommand);
    }
    if bytes.len() < 4 {
        return Err(ProtocolError::Truncated);
    }
    let atyp = bytes[3];
    if atyp == ATYP_V4 {
        if bytes.len() < 10 {
            return Err(ProtocolError::Truncated);
        }
        let addr = HostAddr::V4(bytes[4], bytes[5], bytes[6], bytes[7]);
        let port = (bytes[8] as u16) * 256 + (bytes[9] as u16);
        Ok((ConnectRequest { addr, port }, 10))
    } else if atyp == ATYP_DOMAIN {
        if bytes.len() < 5 {
            return Err(ProtocolError::Truncated);
        }
        let len = bytes[4] as usize;
        if bytes.len() < 7 + len {
            return Err(ProtocolError::Truncated);
        }
        let host = copy_range(bytes, 5, len);
        let port = (bytes[5 + len] as u16) * 256 + (bytes[6 + len] as u16);
        Ok((ConnectRequest { addr: HostAddr::Domain(host), port }, 7 + len))
    } else {
        Err(ProtocolError::UnsupportedAddressType)
    }
}

/// Appends every byte of `src` to `out`.
pub(crate) fn append_bytes(out: &mut Vec<u8>, src: &Vec<u8>)
    ensures
        final(out)@ == old(out)@ + src@,
{
    let mut i: usize = 0;
    while i < src.len()
        invariant
            i <= src@.len(),
            out@ == old(out)@ + src@.subrange(0, i as int),
        decreases src@.len() - i,
    {
        out.push(src[i]);
        assert(out@ =~= old(out)@ + src@.subrange(0, i + 1));
        i = i + 1;
    }
    assert(out@ =~= old(out)@ + src@);
}

/// Encodes a CONNECT reply: version, code, reserved, address, port.
pub fn encode_connect_reply(code: u8, addr: &HostAddr, port: u16) -> (r: Vec<u8>)
    requires
        addr_wf(addr@),
    ensures
        r@ == reply_bytes(code, addr@, port),
{
    let mut out: Vec<u8> = Vec::new();
    out.push(SOCKS_VERSION);
    out.push(code);
    out.push(RESERVED);
    match addr {
        HostAddr::V4(a, b, c, d) => {
            out.push(ATYP_V4);
            out.push(*a);
            out.push(*b);
            out.push(*c);
            out.push(*d);
        }
        HostAddr::Domain(h) => {
            out.push(ATYP_DOMAIN);
            out.push(h.len() as u8);
            append_bytes(&mut out, h);
        }
        HostAddr::V6(h) => {
            out.push(ATYP_V6);
            append_bytes(&mut out, h);
        }
    }
    out.push((port / 256) as u8);
    out.push((port % 256) as u8);
    assert(out@ =~= reply_bytes(code, addr@, port));
    out
}

/// Decodes a CONNECT reply from the front of `bytes`. Returns the reply
/// and the bytes consumed.
pub fn decode_connect_reply(bytes: &Vec<u8>) -> (r: Result<(ConnectReply, usize), ProtocolError>)
    ensures
        r matches Ok((rep, used)) ==> reply_model(bytes@) matches Ok(m)
            && rep.code == m.code && rep.addr@ == m.addr && rep.port == m.port && used == m.used,
        r matches Err(e) ==> reply_model(bytes@) matches Err(m) && e == m,
{
    if bytes.len() < 1 {
        return Err(ProtocolError::Truncated);
    }
    if bytes[0] != SOCKS_VERSION {
        return Err(ProtocolError::BadVersion);
    }
    if bytes.len() < 4 {
        return Err(ProtocolError::Truncated);
    }
    let code = bytes[1];
    let atyp = bytes[3];
    if atyp == ATYP_V4 {
        if bytes.len() < 10 {
            return Err(ProtocolError::Truncated);
        }
        let addr = HostAddr::V4(bytes[4], bytes[5], bytes[6], bytes[7]);
        let port = (bytes[8] as u16) * 256 + (bytes[9] as u16);
        Ok((ConnectReply { code, addr, port }, 10))
    } else if atyp == ATYP_DOMAIN {
        if bytes.len() < 5 {
            return Err(ProtocolError::Truncated);
        }
        let len = bytes[4] as usize;
        if bytes.len() < 7 + len {
            return Err(ProtocolError::Truncated);
        }
        let host = copy_range(bytes, 5, len);
        let port = (bytes[5 + len] as u16) * 256 + (bytes[6 + len] as u16);
        Ok((ConnectReply { code, addr: HostAddr::Domain(host), port }, 7 + len))
    } else if atyp == ATYP_V6 {
        if bytes.len() < 22 {
            return Err(ProtocolError::Truncated);
        }
        let host = copy_range(bytes, 4, 16);
        let port = (bytes[20] as u16) * 256 + (bytes[21] as u16);
        Ok((ConnectReply { code, addr: HostAddr::V6(host), port }, 22))
    } else {
        Err(ProtocolError::UnsupportedAddressType)
    }
}

} // verus!
