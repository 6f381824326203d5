//! The synthetic messages of the producer: message number `n` carries the
//! text `message-n`.

use crate::broker::message_from_text;
use crate::error::HarnessError;
use crate::message::OutgoingMessage;
use crate::text::decimal_chars;
use crate::text::decimal_string;
use crate::text::is_digit;
use crate::text::lemma_decimal_injective;
use crate::text::lemma_decimal_len_u64;
use crate::text::lemma_decimal_shape;
use vstd::prelude::*;
use vstd::utf8::decode_utf8;
use vstd::utf8::encode_utf8;
use vstd::utf8::encode_utf8_decode_utf8;
use vstd::utf8::encode_utf8_valid_utf8;
use vstd::utf8::is_ascii_chars;
use vstd::utf8::is_ascii_chars_encode_utf8;
use vstd::utf8::valid_utf8;

verus! {

/// What every label starts with.
pub open spec fn label_prefix() -> Seq<char> {
    seq!['m', 'e', 's', 's', 'a', 'g', 'e', '-']
}

/// The text of message number `n`: the prefix followed by `n` in decimal.
pub open spec fn label_chars(n: nat) -> Seq<char> {
    label_prefix() + decimal_chars(n)
}

/// The payload of message number `n`: its text in UTF-8.
pub open spec fn payload_of(n: nat) -> Seq<u8> {
    encode_utf8(label_chars(n))
}

/// The number of the message at position `i` of the batch that follows
/// message number `last`: numbering goes on from `last + 1`.
pub open spec fn label_number(last: nat, i: int) -> nat {
    (last + 1 + i) as nat
}

/// Whether `messages` is the batch that follows message number `last`:
/// `count` messages numbered `last + 1` to `last + count`, in that order,
/// each with its payload and with the choice of identifier left to the
/// broker.
pub open spec fn is_batch(messages: Seq<OutgoingMessage>, last: nat, count: nat) -> bool {
    &&& messages.len() == count
    &&& forall|i: int|
        0 <= i < count ==> {
            &&& (#[trigger] messages[i]).id == 0
            &&& messages[i].payload@ == payload_of(label_number(last, i))
        }
}

/// A label is plain ASCII, is written with the prefix and digits alone, and
/// so takes one byte per character; that of a 64-bit counter is at most 28
/// characters long.
pub proof fn lemma_label_shape(n: nat)
    ensures
        is_ascii_chars(label_chars(n)),
        !label_chars(n).contains('|'),
        label_chars(n).len() > 8,
        payload_of(n).len() == label_chars(n).len(),
        forall|i: int|
            0 <= i < label_chars(n).len() ==> payload_of(n)[i] == #[trigger] label_chars(n)[i] as u8,
        n <= u64::MAX ==> label_chars(n).len() <= 28,
{
    lemma_decimal_shape(n);
    let chars = label_chars(n);
    assert forall|i: int| 0 <= i < chars.len() implies {
        &&& '\0' <= #[trigger] chars[i] <= '\u{7f}'
        &&& chars[i] != '|'
    } by {
        if i >= 8 {
            assert(chars[i] == decimal_chars(n)[i - 8]);
            assert(is_digit(decimal_chars(n)[i - 8]));
        }
    }
    is_ascii_chars_encode_utf8(chars);
    if n <= u64::MAX {
        lemma_decimal_len_u64(n);
    }
}

/// A payload is well-formed UTF-8 and reads back as the label it was made
/// from.
pub proof fn lemma_payload_reads_back(n: nat)
    ensures
        valid_utf8(payload_of(n)),
        decode_utf8(payload_of(n)) == label_chars(n),
{
    encode_utf8_valid_utf8(label_chars(n));
    encode_utf8_decode_utf8(label_chars(n));
}

/// Different messages carry different labels and different payloads.
pub proof fn lemma_payloads_differ(a: nat, b: nat)
    requires
        a != b,
    ensures
        label_chars(a) != label_chars(b),
        payload_of(a) != payload_of(b),
{
    if label_chars(a) == label_chars(b) {
        assert(decimal_chars(a) =~= label_chars(a).subrange(8, label_chars(a).len() as int));
        assert(decimal_chars(b) =~= label_chars(b).subrange(8, label_chars(b).len() as int));
        lemma_decimal_injective(a, b);
    }
    lemma_payload_reads_back(a);
    lemma_payload_reads_back(b);
}

/// The numbers of the batch that follows message number `last` lie above
/// `last` and end with `last + count`.
pub proof fn lemma_batch_numbers(last: nat, count: nat, i: int)
    requires
        0 <= i < count,
    ensures
        last < label_number(last, i) <= last + count,
        i + 1 < count ==> label_number(last, i) < label_number(last, i + 1),
{
}

/// Writes the label of message number `n`.
pub fn label_text(n: u64) -> (text: String)
    ensures
        text@ == label_chars(n as nat),
{
    proof {
        reveal_strlit("message-");
    }
    let mut text = "message-".to_owned();
    assert(text@ =~= label_prefix());
    let digits = decimal_string(n);
    text.append(digits.as_str());
    text
}

/// Builds message number `n`.
pub fn labelled_message(n: u64) -> (made: Result<OutgoingMessage, HarnessError>)
    ensures
        made matches Ok(message) && message.id == 0 && message.payload@ == payload_of(n as nat),
{
    let text = label_text(n);
    proof {
        lemma_label_shape(n as nat);
    }
    match message_from_text(text.as_str()) {
        Some(message) => Ok(message),
        None => Err(HarnessError::RejectedPayload),
    }
}

/// Builds the batch that follows message number `last`: `count` messages
/// numbered `last + 1` to `last + count`.
pub fn build_batch(last: u64, count: u32) -> (made: Result<Vec<OutgoingMessage>, HarnessError>)
    requires
        last + count <= u64::MAX,
    ensures
        made matches Ok(messages) && is_batch(messages@, last as nat, count as nat),
{
    let mut messages: Vec<OutgoingMessage> = Vec::new();
    let mut current: u64 = last;
    let mut built: u32 = 0;
    while built < count
        invariant
            built <= count,
            last + count <= u64::MAX,
            current == last + built,
            is_batch(messages@, last as nat, built as nat),
        decreases count - built,
    {
        current = current + 1;
        match labelled_message(current) {
            Ok(message) => {
                messages.push(message);
            },
            Err(error) => {
                return Err(error);
            },
        }
        built = built + 1;
    }
    Ok(messages)
}

} // verus!
