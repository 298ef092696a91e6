//! SCALE byte encoding of the values that contract calls carry.
//!
//! The encoding itself is done by `parity-scale-codec`; this module states
//! what comes back and guards the one input on which the encoder gives up.

use vstd::prelude::*;
use vstd::utf8::encode_utf8;
use crate::error::Error;

verus! {

/// The largest number of elements of a collection that SCALE can encode.
pub const MAX_ENCODED_LEN: usize = 0xffff_ffff;

/// The little-endian bytes of `v`, `width` of them (`width` at most 4).
pub open spec fn le_bytes(v: nat, width: nat) -> Seq<u8> {
    seq![
        (v % 256) as u8,
        ((v / 0x100) % 256) as u8,
        ((v / 0x1_0000) % 256) as u8,
        ((v / 0x100_0000) % 256) as u8,
    ].take(width as int)
}

/// The compact form in which SCALE writes the length of a collection:
/// one byte below 2^6, two below 2^14, four below 2^30, with the mode in the
/// two lowest bits; above that a byte `3` and the four bytes of the number.
pub open spec fn compact_len(n: nat) -> Seq<u8> {
    if n < 0x40 {
        seq![(n * 4) as u8]
    } else if n < 0x4000 {
        le_bytes(n * 4 + 1, 2)
    } else if n < 0x4000_0000 {
        le_bytes(n * 4 + 2, 4)
    } else {
        seq![3u8] + le_bytes(n, 4)
    }
}

/// The SCALE encoding of a byte string: its length in compact form, then the
/// bytes themselves.
pub open spec fn encoded_bytes(data: Seq<u8>) -> Seq<u8> {
    compact_len(data.len()) + data
}

/// Whether SCALE can encode a byte string of this length.
pub open spec fn encodable_len(len: nat) -> bool {
    len <= MAX_ENCODED_LEN
}

/// Calls `parity_scale_codec::Encode::encode` on a byte slice. The contract
/// claims that the result is the slice's length as a compact `u32` followed
/// by the bytes unchanged. The encoder panics on a slice of more than
/// `u32::MAX` bytes, which `requires` leaves out.
#[verifier::external_body]
fn scale_encode_slice(data: &[u8]) -> (out: Vec<u8>)
    requires
        encodable_len(data@.len()),
    ensures
        out@ == encoded_bytes(data@),
{
    parity_scale_codec::Encode::encode(data)
}

/// Calls `parity_scale_codec::Encode::encode` on an array of 32 bytes. The
/// contract claims that a fixed-size array is written without a length: the
/// result is the 32 bytes themselves.
#[verifier::external_body]
fn scale_encode_fixed(id: &[u8; 32]) -> (out: Vec<u8>)
    ensures
        out@ == id@,
{
    parity_scale_codec::Encode::encode(id)
}

/// Encodes a byte string, or reports that it is too long to be encoded.
pub fn encode_bytes(data: &[u8]) -> (out: Result<Vec<u8>, Error>)
    ensures
        match out {
            Ok(bytes) => encodable_len(data@.len()) && bytes@ == encoded_bytes(data@),
            Err(e) => !encodable_len(data@.len()) && e == Error::Encoding,
        },
{
    if data.len() > MAX_ENCODED_LEN {
        Err(Error::Encoding)
    } else {
        Ok(scale_encode_slice(data))
    }
}

/// The SCALE encoding of a text: that of the byte string of its UTF-8 form.
pub open spec fn encoded_text(text: Seq<char>) -> Seq<u8> {
    encoded_bytes(encode_utf8(text))
}

/// Whether SCALE can encode this text.
pub open spec fn encodable_text(text: Seq<char>) -> bool {
    encodable_len(encode_utf8(text).len())
}

/// The UTF-8 form of a text has at most four bytes for every character, so
/// every text of less than 2^30 characters can be encoded.
pub proof fn short_text_is_encodable(text: Seq<char>)
    ensures
        encode_utf8(text).len() <= 4 * text.len(),
        text.len() < 0x4000_0000 ==> encodable_text(text),
    decreases text.len(),
{
    if text.len() > 0 {
        short_text_is_encodable(text.drop_first());
    }
}

/// Encodes a text, or reports that it is too long to be encoded.
pub fn encode_text(text: &str) -> (out: Result<Vec<u8>, Error>)
    ensures
        match out {
            Ok(bytes) => encodable_text(text@) && bytes@ == encoded_text(text@),
            Err(e) => !encodable_text(text@) && e == Error::Encoding,
        },
{
    encode_bytes(text.as_bytes())
}

/// Encodes an account identifier: its 32 bytes, with no length before them.
pub fn encode_account(id: &[u8; 32]) -> (out: Vec<u8>)
    ensures
        out@ == id@,
{
    scale_encode_fixed(id)
}

} // verus!
