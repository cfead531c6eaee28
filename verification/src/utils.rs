//! Base64, as the agent-facing tools exchange bytes.

use vstd::prelude::*;
use vstd::string::*;

verus! {

/// The standard base64 text of bytes, with padding.
pub uninterp spec fn base64_text(bytes: Seq<u8>) -> Seq<char>;

/// The bytes that a standard base64 text stands for, if it is one.
pub uninterp spec fn base64_bytes(text: Seq<char>) -> Option<Seq<u8>>;

/// What a decoding returns, as a mathematical value.
pub open spec fn decoded_view(r: Option<Vec<u8>>) -> Option<Seq<u8>> {
    match r {
        Some(v) => Some(v@),
        None => None,
    }
}

/// Calls `base64::encode`, which writes the bytes in the standard alphabet
/// with padding. The result is a function of the bytes, and decoding it
/// gives the bytes back.
#[verifier::external_body]
fn b64_encode(input: &[u8]) -> (r: String)
    ensures
        r@ == base64_text(input@),
        base64_bytes(r@) == Some(input@),
{
    #[allow(deprecated)]
    base64::encode(input)
}

/// Calls `base64::decode`, which reads a text in the standard alphabet with
/// padding and fails on any other text. The result is a function of the
/// text.
#[verifier::external_body]
fn b64_decode(input: &str) -> (r: Option<Vec<u8>>)
    ensures
        decoded_view(r) == base64_bytes(input@),
{
    #[allow(deprecated)]
    base64::decode(input).ok()
}

/// Bytes as base64 text.
pub fn encode_base64(input: &[u8]) -> (r: String)
    ensures
        r@ == base64_text(input@),
        base64_bytes(r@) == Some(input@),
{
    b64_encode(input)
}

/// The bytes of a base64 text, or nothing where the text is not base64.
pub fn try_decode_base64(input: &str) -> (r: Option<Vec<u8>>)
    ensures
        decoded_view(r) == base64_bytes(input@),
{
    b64_decode(input)
}

/// The bytes of a base64 text. The text must be base64.
pub fn decode_base64(input: &str) -> (r: Vec<u8>)
    requires
        base64_bytes(input@) is Some,
    ensures
        Some(r@) == base64_bytes(input@),
{
    match b64_decode(input) {
        Some(v) => v,
        None => Vec::new(),
    }
}

/// Encodes bytes and decodes the text again: the bytes come back as they
/// were.
pub fn base64_round_trip(input: &[u8]) -> (r: Vec<u8>)
    ensures
        r@ == input@,
{
    let text = encode_base64(input);
    decode_base64(text.as_str())
}

} // verus!
