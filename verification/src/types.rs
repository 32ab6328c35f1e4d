//! Protocol constants, the error taxonomy, and the message data model.

use vstd::prelude::*;

verus! {

pub const SOCKS_VERSION: u8 = 0x05;
pub const METHOD_NO_AUTH: u8 = 0x00;
pub const METHOD_NO_ACCEPTABLE: u8 = 0xFF;
pub const CMD_CONNECT: u8 = 0x01;
pub const RESERVED: u8 = 0x00;
pub const ATYP_V4: u8 = 0x01;
pub const ATYP_DOMAIN: u8 = 0x03;
pub const ATYP_V6: u8 = 0x04;
pub const REPLY_SUCCEEDED: u8 = 0x00;

/// Errors raised while decoding or negotiating the handshake and request
/// messages. All of them are terminal for the session that raised them.
#[derive(Clone, Copy, PartialEq, Eq, Structural, Debug)]
pub enum ProtocolError {
    /// The version byte of a message was not 0x05.
    BadVersion,
    /// Fewer bytes were available than the message's own framing requires.
    Truncated,
    /// The request command was not CONNECT.
    UnsupportedCommand,
    /// The request address type was not IPv4 or domain.
    UnsupportedAddressType,
    /// The greeting offered methods, but "no authentication" was not among them.
    NoAcceptableAuthMethod,
}

/// One of the two copy directions of an established relay.
#[derive(Clone, Copy, PartialEq, Eq, Structural, Debug)]
pub enum Direction {
    ClientToDest,
    DestToClient,
}

/// Failure to open the destination connection after a request resolved.
#[derive(Clone, Copy, PartialEq, Eq, Structural, Debug)]
pub enum ConnectError {
    DestinationUnreachable,
}

/// An I/O failure inside one relay direction; it ends that direction
/// the same way an end-of-stream does.
#[derive(Clone, Copy, PartialEq, Eq, Structural, Debug)]
pub enum RelayError {
    IoFailure(Direction),
}

/// A destination address as it appears on the wire: a literal IPv4
/// address, a domain name (its raw bytes), or a literal IPv6 address.
/// Only IPv4 and domain destinations can be requested of the server;
/// IPv6 exists so a client can consume replies that carry one.
#[derive(Debug, PartialEq, Eq)]
pub enum HostAddr {
    V4(u8, u8, u8, u8),
    Domain(Vec<u8>),
    V6(Vec<u8>),
}

/// The mathematical shape of a `HostAddr`.
pub enum AddrModel {
    V4(u8, u8, u8, u8),
    Domain(Seq<u8>),
    V6(Seq<u8>),
}

impl View for HostAddr {
    type V = AddrModel;

    open spec fn view(&self) -> AddrModel {
        match self {
            HostAddr::V4(a, b, c, d) => AddrModel::V4(*a, *b, *c, *d),
            HostAddr::Domain(h) => AddrModel::Domain(h@),
            HostAddr::V6(h) => AddrModel::V6(h@),
        }
    }
}

/// A well-formed address: a domain name fits its one-byte length prefix,
/// an IPv6 address is exactly sixteen bytes.
pub open spec fn addr_wf(a: AddrModel) -> bool {
    match a {
        AddrModel::V4(_a, _b, _c, _d) => true,
        AddrModel::Domain(h) => h.len() <= 255,
        AddrModel::V6(h) => h.len() == 16,
    }
}

/// A decoded greeting: the authentication methods the client offered.
#[derive(Debug, PartialEq, Eq)]
pub struct HandshakeRequest {
    pub methods: Vec<u8>,
}

/// A decoded CONNECT request: the destination to open a connection to.
#[derive(Debug, PartialEq, Eq)]
pub struct ConnectRequest {
    pub addr: HostAddr,
    pub port: u16,
}

/// A decoded CONNECT reply: result code and the echoed bound address.
#[derive(Debug, PartialEq, Eq)]
pub struct ConnectReply {
    pub code: u8,
    pub addr: HostAddr,
    pub port: u16,
}

} // verus!
