//! The text-safe encoding of bytes: standard Base64 with padding, as the
//! `base64` crate computes it.

use base64::Engine;
use vstd::prelude::*;

verus! {

/// The text that standard padded Base64 gives for `bytes`.
pub uninterp spec fn base64_encoding(bytes: Seq<u8>) -> Seq<char>;

/// What standard padded Base64 decoding makes of `text`: the bytes, or the
/// decoder's message where `text` is not a canonical encoding.
pub uninterp spec fn base64_decoding(text: Seq<char>) -> Result<Seq<u8>, Seq<char>>;

/// The length of the encoding of `len` bytes: four characters for every
/// three bytes, the last group padded.
pub open spec fn encoded_len(len: nat) -> nat {
    4 * ((len + 2) / 3)
}

/// Whether the encoding of `len` bytes has a length that the machine can
/// represent.
pub open spec fn encodable(len: nat) -> bool {
    encoded_len(len) <= usize::MAX
}

/// The outcome of a decoding call, by its views.
pub open spec fn decoded_model(outcome: Result<Vec<u8>, String>) -> Result<Seq<u8>, Seq<char>> {
    match outcome {
        Ok(bytes) => Ok(bytes@),
        Err(message) => Err(message@),
    }
}

/// Decides [`encodable`] for a length at hand.
pub fn is_encodable(len: usize) -> (fits: bool)
    ensures
        fits == encodable(len as nat),
{
    let groups: usize = if len % 3 == 0 {
        len / 3
    } else {
        len / 3 + 1
    };
    groups <= usize::MAX / 4
}

/// Calls `base64::engine::general_purpose::STANDARD.encode`.
///
/// Trusted: the result is the Base64 text of `bytes`, it has four characters
/// for every started group of three bytes, and the same engine decodes it
/// back to `bytes`. The crate panics where the encoded length overflows
/// `usize`, which the precondition excludes.
#[verifier::external_body]
pub(crate) fn encode(bytes: &[u8]) -> (text: String)
    requires
        encodable(bytes@.len()),
    ensures
        text@ == base64_encoding(bytes@),
        text@.len() == encoded_len(bytes@.len()),
        base64_decoding(text@) == (Ok::<Seq<u8>, Seq<char>>(bytes@)),
{
    base64::engine::general_purpose::STANDARD.encode(bytes)
}

/// Calls `base64::engine::general_purpose::STANDARD.decode`.
///
/// Trusted: the outcome depends on `text` alone; a failure carries the
/// decoder's own message.
#[verifier::external_body]
pub(crate) fn decode(text: &str) -> (outcome: Result<Vec<u8>, String>)
    ensures
        decoded_model(outcome) == base64_decoding(text@),
{
    base64::engine::general_purpose::STANDARD.decode(text).map_err(|e| e.to_string())
}

} // verus!
