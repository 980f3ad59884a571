//! Base64, as the `base64` crate writes and reads it.

use vstd::prelude::*;

verus! {

/// The standard, padded Base64 text of `bytes`.
pub uninterp spec fn base64_text(bytes: Seq<u8>) -> Seq<char>;

/// The bytes that `text` stands for in standard, padded Base64; `None` where
/// `text` is no such text.
pub uninterp spec fn base64_bytes(text: Seq<char>) -> Option<Seq<u8>>;

/// `base64::encode`. The contract claims that the text is the one named
/// `base64_text` for these bytes, and that this text reads back as the same
/// bytes: the crate's decoder accepts what its encoder, with the same
/// standard configuration, has written. The call does not panic: the size
/// computation that could overflow cannot for a slice, which holds at most
/// `isize::MAX` bytes.
#[verifier::external_body]
pub(crate) fn encode_base64(bytes: &[u8]) -> (text: String)
    ensures
        text@ == base64_text(bytes@),
        base64_bytes(text@) == Some(bytes@),
{
    base64::encode(bytes)
}

/// `base64::decode`. The contract claims only that the outcome is the one
/// named `base64_bytes` for this text, with `None` for every
/// `base64::DecodeError`.
#[verifier::external_body]
pub(crate) fn decode_base64(text: &str) -> (bytes: Option<Vec<u8>>)
    ensures
        match bytes {
            Some(b) => base64_bytes(text@) == Some(b@),
            None => base64_bytes(text@) is None,
        },
{
    match base64::decode(text) {
        Ok(bytes) => Some(bytes),
        Err(_) => None,
    }
}

} // verus!
