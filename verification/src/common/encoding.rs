//! Base64 (standard alphabet, with padding) for binary data carried in JSON.

use vstd::prelude::*;

use base64::Engine;

verus! {

/// The text that `BASE64_STANDARD.encode` makes of `data`.
pub uninterp spec fn base64_encoded(data: Seq<u8>) -> Seq<char>;

/// What `BASE64_STANDARD.decode` makes of `text`: the bytes, or the text of
/// its error.
pub uninterp spec fn base64_decoded(text: Seq<char>) -> Result<Seq<u8>, Seq<char>>;

/// A successful decoding that gives `data`.
pub open spec fn decoded_bytes(data: Seq<u8>) -> Result<Seq<u8>, Seq<char>> {
    Ok(data)
}

/// Encodes `data` with the standard alphabet and padding
/// (`base64::Engine::encode` on `BASE64_STANDARD`). The output is the
/// canonical RFC 4648 encoding, which the same engine decodes back to `data`.
#[verifier::external_body]
pub(crate) fn base64_encode(data: &[u8]) -> (r: String)
    ensures
        r@ == base64_encoded(data@),
        base64_decoded(r@) == decoded_bytes(data@),
{
    base64::prelude::BASE64_STANDARD.encode(data)
}

/// Decodes `text` with the standard alphabet and padding
/// (`base64::Engine::decode` on `BASE64_STANDARD`); the error is given as its
/// text.
#[verifier::external_body]
pub(crate) fn base64_decode(text: &str) -> (r: Result<Vec<u8>, String>)
    ensures
        match base64_decoded(text@) {
            Ok(b) => r matches Ok(v) && v@ == b,
            Err(m) => r matches Err(e) && e@ == m,
        },
{
    match base64::prelude::BASE64_STANDARD.decode(text) {
        Ok(v) => Ok(v),
        Err(e) => Err(e.to_string()),
    }
}

} // verus!
