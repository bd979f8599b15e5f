//! The wire form of the control messages that the relay sends.

use vstd::prelude::*;
use vstd::utf8::encode_utf8;
use crate::relay::{RelayMessage, RelayValue};

verus! {

/// The zero bytes that end a string of `len` bytes and fill it up to a
/// multiple of four: at least one, at most four.
pub open spec fn zero_padding(len: nat) -> Seq<u8> {
    Seq::new((4 - len % 4) as nat, |i: int| 0u8)
}

/// A string on the wire: its bytes, then the zero padding.
pub open spec fn padded_string(bytes: Seq<u8>) -> Seq<u8> {
    bytes + zero_padding(bytes.len())
}

/// The four bytes of a word, the most significant first.
pub open spec fn big_endian(word: u32) -> Seq<u8> {
    seq![
        (word / 0x100_0000) as u8,
        (word / 0x1_0000 % 0x100) as u8,
        (word / 0x100 % 0x100) as u8,
        (word % 0x100) as u8,
    ]
}

/// The word that carries an integer: its two's complement.
pub open spec fn integer_word(v: i32) -> u32 {
    if v >= 0 {
        v as u32
    } else {
        (v + 0x1_0000_0000) as u32
    }
}

/// A message with one integer argument on the wire: the padded address,
/// the padded type tags (a comma and `i`), then the integer.
pub open spec fn integer_message_bytes(addr: Seq<char>, value: i32) -> Seq<u8> {
    padded_string(encode_utf8(addr)) + seq![0x2Cu8, 0x69u8, 0u8, 0u8] + big_endian(
        integer_word(value),
    )
}

/// `rosc::encoder::encode` on a packet that is one message with one
/// integer argument. The contract states the bytes that the encoder
/// writes for such a message: the address in UTF-8, ended and padded with
/// zeros to a multiple of four; a comma, the letter `i` and two zeros;
/// the integer's four bytes, the most significant first. Writing into a
/// vector, the encoder cannot fail.
#[verifier::external_body]
fn encode_integer_message(addr: &str, value: i32) -> (bytes: Vec<u8>)
    ensures
        bytes@ == integer_message_bytes(addr@, value),
{
    let message = rosc::OscMessage { addr: addr.to_string(), args: vec![rosc::OscType::Int(value)] };
    match rosc::encoder::encode(&rosc::OscPacket::Message(message)) {
        Ok(bytes) => bytes,
        Err(_) => Vec::new(),
    }
}

/// The bytes to send for a control message that carries an integer. A
/// message that carries a bend strength gives `None`: its value goes on
/// the wire as a floating-point number, which is for the caller to write.
pub fn encode_relay_message(message: &RelayMessage) -> (bytes: Option<Vec<u8>>)
    ensures
        match message.value {
            RelayValue::Int(v) => bytes.is_some() && bytes.unwrap()@ == integer_message_bytes(
                message.addr@,
                v,
            ),
            RelayValue::Tenths(_) => bytes.is_none(),
        },
{
    match message.value {
        RelayValue::Int(v) => Some(encode_integer_message(message.addr.as_str(), v)),
        RelayValue::Tenths(_) => None,
    }
}

/// Every such message is a whole number of four-byte words, and is at
/// least twelve bytes long.
pub proof fn lemma_message_is_aligned(addr: Seq<char>, value: i32)
    ensures
        integer_message_bytes(addr, value).len() % 4 == 0,
        integer_message_bytes(addr, value).len() >= 12,
{
    let n = encode_utf8(addr).len();
    assert(padded_string(encode_utf8(addr)).len() == n + (4 - n % 4));
    assert((n + (4 - n % 4)) % 4 == 0) by (nonlinear_arith)
        requires
            n >= 0,
    ;
}

} // verus!
