//! The server side of one session, up to the point where the relay takes
//! over: what the whole pre-relay exchange writes back to the client and
//! which destination it resolves, as one pure function of the bytes the
//! client sent.

use vstd::prelude::*;
use crate::types::{ProtocolError, ConnectRequest, AddrModel, REPLY_SUCCEEDED};
use crate::codec::{
    request_model, reply_bytes, decode_connect_request, encode_connect_reply, copy_range,
};
use crate::negotiate::{negotiation_model, greeting_reply_model, negotiate_greeting, GreetingOutcome};

verus! {

/// What a whole pre-relay exchange yields: every reply byte written to
/// the client, the resolved destination (if any), and how many input
/// bytes the two messages consumed. Bytes past `used` belong to the relay.
pub struct SessionModel {
    pub replies: Seq<u8>,
    pub target: Option<(AddrModel, u16)>,
    pub used: int,
    pub failure: Option<ProtocolError>,
}

/// The session model: negotiate over the greeting, then resolve the
/// CONNECT request from the remaining bytes. The success reply echoes
/// the originally requested address and port — deliberately so, not a
/// locally bound address, and it is fixed as soon as the request
/// resolves, before any connect attempt. A greeting failure writes at
/// most the refusal reply; a request failure leaves only the greeting
/// reply; in neither case is a destination resolved.
pub open spec fn session_model(s: Seq<u8>) -> SessionModel {
    match negotiation_model(s) {
        Err(e) => SessionModel {
            replies: greeting_reply_model(s),
            target: None,
            used: 0,
            failure: Some(e),
        },
        Ok(g) => match request_model(s.skip(g)) {
            Err(e) => SessionModel {
                replies: greeting_reply_model(s),
                target: None,
                used: g,
                failure: Some(e),
            },
            Ok(m) => SessionModel {
                replies: greeting_reply_model(s) + reply_bytes(REPLY_SUCCEEDED, m.addr, m.port),
                target: Some((m.addr, m.port)),
                used: g + m.used,
                failure: None,
            },
        },
    }
}

/// The outcome of driving one session over the bytes the client sent.
pub struct SessionResult {
    /// Every byte the server writes back before the relay starts.
    pub replies: Vec<u8>,
    /// The destination to connect to, when one was resolved.
    pub target: Option<ConnectRequest>,
    /// Input bytes consumed by the greeting and the request.
    pub used: usize,
    /// The error that ended the session early, if one did.
    pub error: Option<ProtocolError>,
}

/// Drives the pre-relay part of a server session over `input`, the bytes
/// received from the client: negotiates the greeting, resolves the
/// CONNECT request, and fixes the replies to write.
pub fn run_session(input: &Vec<u8>) -> (r: SessionResult)
    ensures
        r.replies@ == session_model(input@).replies,
        r.used == session_model(input@).used,
        r.target matches Some(t) ==> session_model(input@).target == Some((t.addr@, t.port)),
        r.target is None ==> session_model(input@).target is None,
        r.error == session_model(input@).failure,
{
    match negotiate_greeting(input) {
        GreetingOutcome::Accepted { reply, used } => {
            let tail = copy_range(input, used, input.len() - used);
            proof {
                assert(tail@ =~= input@.skip(used as int));
            }
            match decode_connect_request(&tail) {
                Ok((req, req_used)) => {
                    let mut replies = reply;
                    let echo = encode_connect_reply(REPLY_SUCCEEDED, &req.addr, req.port);
                    crate::codec::append_bytes(&mut replies, &echo);
                    SessionResult {
                        replies,
                        target: Some(req),
                        used: used + req_used,
                        error: None,
                    }
                }
                Err(e) => SessionResult {
                    replies: reply,
                    target: None,
                    used,
                    error: Some(e),
                },
            }
        }
        GreetingOutcome::Refused { reply } => SessionResult {
            replies: reply,
            target: None,
            used: 0,
            error: Some(ProtocolError::NoAcceptableAuthMethod),
        },
        GreetingOutcome::Invalid { error } => SessionResult {
            replies: Vec::new(),
            target: None,
            used: 0,
            error: Some(error),
        },
    }
}

} // verus!
