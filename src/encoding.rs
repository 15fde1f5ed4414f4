use vstd::prelude::*;

use base64::Engine;

verus! {

/// The unpadded base64url text of a byte sequence.
pub uninterp spec fn b64url_of(b: Seq<u8>) -> Seq<char>;

/// The bytes that an unpadded base64url text decodes to, if it is valid.
pub uninterp spec fn b64url_decoded(s: Seq<char>) -> Option<Seq<u8>>;

/// Relies on base64's `BASE64_URL_SAFE_NO_PAD.encode`: the unpadded base64url text
/// of the bytes, which the same engine decodes back to those bytes.
#[verifier::external_body]
pub(crate) fn b64url_encode(b: &[u8]) -> (r: String)
    ensures
        r@ == b64url_of(b@),
        b64url_decoded(r@) == Some(b@),
{
    base64::prelude::BASE64_URL_SAFE_NO_PAD.encode(b)
}

/// Relies on base64's `BASE64_URL_SAFE_NO_PAD.decode`: the bytes of an unpadded
/// base64url text, or `None` where the text is not one. The engine refuses
/// padding and non-zero trailing bits, so a text it decodes is the encoding of
/// its bytes.
#[verifier::external_body]
pub(crate) fn b64url_decode(s: &str) -> (r: Option<Vec<u8>>)
    ensures
        match r {
            Some(b) => b64url_decoded(s@) == Some(b@) && b64url_of(b@) == s@,
            None => b64url_decoded(s@) is None,
        },
{
    base64::prelude::BASE64_URL_SAFE_NO_PAD.decode(s).ok()
}

} // verus!
