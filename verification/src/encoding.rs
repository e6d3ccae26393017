//! Base64, as the backend's JSON interface carries audio.

use base64::Engine;
use vstd::prelude::*;

verus! {

/// The standard, padded base64 text of `bytes`.
pub uninterp spec fn base64_text(bytes: Seq<u8>) -> Seq<char>;

/// What decoding `text` as standard, padded base64 gives: the bytes, or the
/// decoder's complaint in words.
pub uninterp spec fn base64_bytes(text: Seq<char>) -> Result<Seq<u8>, Seq<char>>;

/// The longest input whose base64 text still fits in memory.
pub open spec fn longest_encodable() -> nat {
    (isize::MAX / 4 * 3) as nat
}

/// Whether `length` bytes can be encoded.
pub fn encodable(length: usize) -> (fits: bool)
    ensures
        fits == (length <= longest_encodable()),
{
    length <= (isize::MAX as usize) / 4 * 3
}

/// Calls `Engine::encode` of `base64` on the engine
/// `general_purpose::STANDARD`. The contract names the result and claims
/// that it depends on the bytes alone. The call panics where the length of
/// the text overflows; `requires` keeps such inputs out.
#[verifier::external_body]
pub(crate) fn encode(bytes: &Vec<u8>) -> (text: String)
    requires
        bytes@.len() <= longest_encodable(),
    ensures
        text@ == base64_text(bytes@),
{
    base64::engine::general_purpose::STANDARD.encode(bytes)
}

/// Calls `Engine::decode` of `base64` on the engine
/// `general_purpose::STANDARD`, and turns a `DecodeError` into the words of
/// its `Display`. The contract names the outcome and claims that it depends
/// on the characters of `text` alone.
#[verifier::external_body]
pub(crate) fn decode(text: &str) -> (outcome: Result<Vec<u8>, String>)
    ensures
        match outcome {
            Ok(bytes) => base64_bytes(text@) == Ok::<Seq<u8>, Seq<char>>(bytes@),
            Err(complaint) => base64_bytes(text@) == Err::<Seq<u8>, Seq<char>>(complaint@),
        },
{
    match base64::engine::general_purpose::STANDARD.decode(text) {
        Ok(bytes) => Ok(bytes),
        Err(error) => Err(error.to_string()),
    }
}

} // verus!
