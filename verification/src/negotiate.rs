//! The handshake negotiator: given the client's greeting, pick the
//! authentication method and produce the reply to send, or the error
//! that ends the session.

use vstd::prelude::*;
use crate::types::{ProtocolError, METHOD_NO_AUTH, METHOD_NO_ACCEPTABLE};
use crate::codec::{greeting_model, handshake_reply_bytes, decode_handshake, encode_handshake_reply};

verus! {

/// What negotiating over a greeting yields: the number of greeting bytes
/// consumed when "no authentication" was offered, or the error otherwise.
pub open spec fn negotiation_model(s: Seq<u8>) -> Result<int, ProtocolError> {
    match greeting_model(s) {
        Ok(m) => if m.methods.contains(METHOD_NO_AUTH) {
            Ok(m.used)
        } else {
            Err(ProtocolError::NoAcceptableAuthMethod)
        },
        Err(e) => Err(e),
    }
}

/// The reply bytes a server writes for a greeting: `[0x05, 0x00]` when
/// "no authentication" was selected, `[0x05, 0xFF]` when the greeting was
/// well-formed but offered no acceptable method — a formal method
/// failure is answered, not closed silently — and nothing at all when
/// the greeting itself was invalid.
pub open spec fn greeting_reply_model(s: Seq<u8>) -> Seq<u8> {
    match negotiation_model(s) {
        Ok(_used) => handshake_reply_bytes(METHOD_NO_AUTH),
        Err(e) => if e is NoAcceptableAuthMethod {
            handshake_reply_bytes(METHOD_NO_ACCEPTABLE)
        } else {
            Seq::empty()
        },
    }
}

/// True iff the offered method list contains "no authentication".
pub fn offers_no_auth(methods: &Vec<u8>) -> (r: bool)
    ensures
        r == methods@.contains(METHOD_NO_AUTH),
{
    let mut i: usize = 0;
    while i < methods.len()
        invariant
            i <= methods@.len(),
            forall|j: int| 0 <= j < i ==> methods@[j] != METHOD_NO_AUTH,
        decreases methods@.len() - i,
    {
        if methods[i] == METHOD_NO_AUTH {
            assert(methods@.contains(METHOD_NO_AUTH));
            return true;
        }
        i = i + 1;
    }
    false
}

/// How the server answers a greeting: with the reply bytes to write (and
/// the greeting bytes consumed, on success), or by closing silently.
pub enum GreetingOutcome {
    /// Method 0x00 selected: write `reply`, then await the request.
    Accepted { reply: Vec<u8>, used: usize },
    /// Well-formed greeting, no acceptable method: write `reply`, then close.
    Refused { reply: Vec<u8> },
    /// Invalid greeting: close without writing anything.
    Invalid { error: ProtocolError },
}

/// Negotiates over the greeting at the front of `bytes`: selects
/// "no authentication" when offered, and fixes the reply to send.
pub fn negotiate_greeting(bytes: &Vec<u8>) -> (r: GreetingOutcome)
    ensures
        r matches GreetingOutcome::Accepted { reply, used } ==> negotiation_model(bytes@) matches Ok(u)
            && used == u && reply@ == greeting_reply_model(bytes@)
            && reply@ == handshake_reply_bytes(METHOD_NO_AUTH),
        r matches GreetingOutcome::Refused { reply } ==>
            negotiation_model(bytes@) == Err::<int, ProtocolError>(ProtocolError::NoAcceptableAuthMethod)
            && reply@ == greeting_reply_model(bytes@)
            && reply@ == handshake_reply_bytes(METHOD_NO_ACCEPTABLE),
        r matches GreetingOutcome::Invalid { error } ==> negotiation_model(bytes@) matches Err(e)
            && error == e && !(e is NoAcceptableAuthMethod)
            && greeting_reply_model(bytes@) == Seq::<u8>::empty(),
{
    match decode_handshake(bytes) {
        Ok((req, used)) => {
            if offers_no_auth(&req.methods) {
                GreetingOutcome::Accepted { reply: encode_handshake_reply(METHOD_NO_AUTH), used }
            } else {
                GreetingOutcome::Refused { reply: encode_handshake_reply(METHOD_NO_ACCEPTABLE) }
            }
        }
        Err(e) => GreetingOutcome::Invalid { error: e },
    }
}

} // verus!
