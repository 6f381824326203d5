//! The pure functions of the broker's client library and of the standard
//! library that the harness logic relies on. Nothing in this file is proved:
//! each contract restates what the called function does.

use crate::message::OutgoingMessage;
use iggy::identifier::Identifier;
use iggy::messages::send_messages::Message;
use std::str::FromStr;
use vstd::prelude::*;
use vstd::utf8::decode_utf8;
use vstd::utf8::encode_utf8;
use vstd::utf8::valid_utf8;

verus! {

/// Asks `iggy::identifier::Identifier::numeric` whether the client library
/// accepts `value` as a numeric identifier. The client library refuses zero
/// and accepts every other value.
#[verifier::external_body]
pub(crate) fn accepts_numeric_identifier(value: u32) -> (accepted: bool)
    ensures
        accepted == (value != 0),
{
    Identifier::numeric(value).is_ok()
}

/// Builds a message with `iggy::messages::send_messages::Message::from_str`
/// and hands back its identifier and payload. For a text without a `|` the
/// client library leaves the identifier at zero and takes the UTF-8 bytes
/// of the whole text as the payload; it refuses the text exactly when that payload
/// is empty. A text with a `|` is parsed differently and a payload of more
/// than `u32::MAX` bytes has its length truncated: both are left out.
#[verifier::external_body]
pub(crate) fn message_from_text(text: &str) -> (made: Option<OutgoingMessage>)
    requires
        !text@.contains('|'),
        encode_utf8(text@).len() <= u32::MAX,
    ensures
        made is Some <==> encode_utf8(text@).len() > 0,
        made matches Some(message) ==> message.id == 0 && message.payload@ == encode_utf8(text@),
{
    match Message::from_str(text) {
        Ok(message) => Some(OutgoingMessage { id: message.id, payload: message.payload.to_vec() }),
        Err(_) => None,
    }
}

/// Reads `bytes` as text with `std::str::from_utf8`, which succeeds exactly
/// on well-formed UTF-8 and then yields the characters that the bytes
/// encode.
#[verifier::external_body]
pub(crate) fn text_from_utf8(bytes: &[u8]) -> (text: Option<&str>)
    ensures
        text is Some <==> valid_utf8(bytes@),
        text matches Some(s) ==> s@ == decode_utf8(bytes@),
{
    match std::str::from_utf8(bytes) {
        Ok(s) => Some(s),
        Err(_) => None,
    }
}

} // verus!
