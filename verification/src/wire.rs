//! What the library has from candid: principal texts, the printing of `Nat` and
//! `Int` values, the argument messages of the queries and the decoding of a `Nat`
//! reply.

use vstd::prelude::*;
use candid::{Int, Nat, Principal};
use crate::leb128::{leb128_form, leb128_of, leb128_value, sleb128_value};
use crate::text::{int_display, nat_display};

verus! {

/// The textual form of the principal whose bytes are given.
pub uninterp spec fn principal_text(bytes: Seq<u8>) -> Seq<char>;

/// The bytes of the principal that a text denotes, if it denotes one.
pub uninterp spec fn principal_of_text(text: Seq<char>) -> Option<Seq<u8>>;

/// The `Nat` that a candid message carries, as its LEB128 bytes, if the message is
/// one that carries a single `Nat`.
pub uninterp spec fn candid_nat_reply(bytes: Seq<u8>) -> Option<Seq<u8>>;

/// The magic bytes `DIDL` that open every candid message.
pub open spec fn didl() -> Seq<u8> {
    seq![68u8, 73u8, 68u8, 76u8]
}

/// The four little-endian bytes of `v` as a 32-bit two's-complement integer.
pub open spec fn le32(v: int) -> Seq<u8> {
    let u = if v < 0 { v + 0x1_0000_0000 } else { v };
    seq![
        (u % 256) as u8,
        ((u / 0x100) % 256) as u8,
        ((u / 0x1_0000) % 256) as u8,
        ((u / 0x100_0000) % 256) as u8,
    ]
}

/// The candid message of two `Nat` arguments: `DIDL`, no type table, two arguments
/// of type `nat` (opcode `-3`, written `0x7d`), then each value in LEB128.
pub open spec fn nat_pair_message(first: nat, second: nat) -> Seq<u8> {
    didl() + seq![0u8, 2u8, 0x7du8, 0x7du8] + leb128_of(first) + leb128_of(second)
}

/// The candid message of one `int32` argument: `DIDL`, no type table, one argument
/// of type `int32` (opcode `-11`, written `0x75`), then its four little-endian bytes.
pub open spec fn int32_message(value: int) -> Seq<u8> {
    didl() + seq![0u8, 1u8, 0x75u8] + le32(value)
}

/// `Principal::to_text` (the same text as its `Display`) on the principal made by
/// `Principal::from_slice` from these bytes. `from_slice` panics on more than 29 bytes,
/// so that is required. The text is left to the name `principal_text`, but for its
/// length: it is the base32 text of at least the four checksum bytes, so seven
/// characters or more.
#[verifier::external_body]
pub(crate) fn principal_to_text(bytes: &[u8]) -> (r: String)
    requires
        bytes@.len() <= 29,
    ensures
        r@ == principal_text(bytes@),
        r@.len() >= 7,
{
    Principal::from_slice(bytes).to_text()
}

/// `Principal::from_text`, handing back the parsed principal's bytes. Its source only
/// builds principals through `try_from_slice`, which refuses more than 29 bytes.
#[verifier::external_body]
pub(crate) fn principal_from_text(text: &str) -> (r: Option<Vec<u8>>)
    ensures
        match r {
            Some(bytes) => principal_of_text(text@) == Some(bytes@) && bytes@.len() <= 29,
            None => principal_of_text(text@) is None,
        },
{
    match Principal::from_text(text) {
        Ok(p) => Some(p.as_slice().to_vec()),
        Err(_) => None,
    }
}

/// `Nat::decode` on LEB128 bytes, then `Nat`'s `Display`. On bytes of LEB128's
/// shape the decoder reads them all and gives their value (its error arm, for a
/// read past the end, is never taken); `Display` prints the decimal digits with
/// `_` between groups of three from the right. The contract states both.
#[verifier::external_body]
pub(crate) fn nat_leb128_to_text(bytes: &[u8]) -> (r: String)
    requires
        leb128_form(bytes@),
    ensures
        r@ == nat_display(leb128_value(bytes@)),
{
    match Nat::decode(&mut &bytes[..]) {
        Ok(n) => n.to_string(),
        Err(_) => String::new(),
    }
}

/// `Int::decode` on signed LEB128 bytes, then `Int`'s `Display`. On bytes of LEB128's
/// shape the decoder reads them all and gives their signed value (its error arm is
/// never taken); `Display` prints a `-` for a negative value, then the digits of its
/// magnitude grouped as for `Nat`. The contract states both.
#[verifier::external_body]
pub(crate) fn int_sleb128_to_text(bytes: &[u8]) -> (r: String)
    requires
        leb128_form(bytes@),
    ensures
        r@ == int_display(sleb128_value(bytes@)),
{
    match Int::decode(&mut &bytes[..]) {
        Ok(i) => i.to_string(),
        Err(_) => String::new(),
    }
}

/// `candid::encode_args` on two `Nat` values. Its source writes the message that
/// `nat_pair_message` states, into a `Vec`, where writing cannot fail (the error arm
/// is never taken).
#[verifier::external_body]
pub(crate) fn encode_nat_pair(first: u128, second: u128) -> (r: Vec<u8>)
    ensures
        r@ == nat_pair_message(first as nat, second as nat),
{
    match candid::encode_args((Nat::from(first), Nat::from(second))) {
        Ok(bytes) => bytes,
        Err(_) => Vec::new(),
    }
}

/// `candid::encode_args` on one `int32` value. Its source writes the message that
/// `int32_message` states, into a `Vec`, where writing cannot fail (the error arm is
/// never taken).
#[verifier::external_body]
pub(crate) fn encode_int32(value: i32) -> (r: Vec<u8>)
    ensures
        r@ == int32_message(value as int),
{
    match candid::encode_args((value,)) {
        Ok(bytes) => bytes,
        Err(_) => Vec::new(),
    }
}

/// `candid::decode_one::<Nat>` on the bytes, handing back the value's LEB128 bytes as
/// `Nat::encode` writes them (into a `Vec`, which cannot fail); a decoding error gives
/// `None`. `Nat::encode` sets the top bit on every byte but the last.
#[verifier::external_body]
pub(crate) fn decode_nat_reply(bytes: &[u8]) -> (r: Option<Vec<u8>>)
    ensures
        match r {
            Some(value) => candid_nat_reply(bytes@) == Some(value@) && leb128_form(value@),
            None => candid_nat_reply(bytes@) is None,
        },
{
    match candid::decode_one::<Nat>(bytes) {
        Ok(n) => {
            let mut value = Vec::new();
            match n.encode(&mut value) {
                Ok(()) => Some(value),
                Err(_) => None,
            }
        },
        Err(_) => None,
    }
}

} // verus!
