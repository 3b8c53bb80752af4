//! URL-safe, unpadded base64, as the `base64` crate computes it.

use vstd::prelude::*;
use vstd::utf8::encode_utf8;

verus! {

/// What `base64::encode_config(input, base64::URL_SAFE_NO_PAD)` returns for `input`.
pub uninterp spec fn base64_url_encoded(input: Seq<u8>) -> Seq<char>;

/// What `base64::decode_config(input, base64::URL_SAFE_NO_PAD)` returns for
/// `input`: the decoded bytes, or the text (`Display`) of the decode error.
pub uninterp spec fn base64_url_decoded(input: Seq<u8>) -> Result<Seq<u8>, Seq<char>>;

/// A character of the URL-safe base64 alphabet.
pub open spec fn is_url_safe_base64_char(c: char) -> bool {
    ||| 'A' <= c <= 'Z'
    ||| 'a' <= c <= 'z'
    ||| '0' <= c <= '9'
    ||| c == '-'
    ||| c == '_'
}

/// The length of the unpadded base64 text of `n` bytes.
pub open spec fn unpadded_len(n: nat) -> nat {
    (4 * n + 2) / 3
}

/// A successful decoding to `bytes`.
pub open spec fn ok_bytes(bytes: Seq<u8>) -> Result<Seq<u8>, Seq<char>> {
    Ok(bytes)
}

/// A decoding result taken by its view.
pub open spec fn decoded_view(r: Result<Vec<u8>, String>) -> Result<Seq<u8>, Seq<char>> {
    match r {
        Ok(v) => Ok(v@),
        Err(e) => Err(e@),
    }
}

/// Calls `base64::encode_config` with `URL_SAFE_NO_PAD`. Trusted: the result is
/// the named encoding of `input`; it has `encoded_size`'s length for an
/// unpadded configuration (four characters per three bytes, two or three for
/// a last partial group); its characters are of the URL-safe alphabet; and
/// decoding its bytes with the same configuration gives `input` back.
/// `encode_config` panics only when the encoded length overflows `usize`,
/// which the `requires` leaves out.
#[verifier::external_body]
pub(crate) fn encode_base64_url(input: &[u8]) -> (r: String)
    requires
        input@.len() <= usize::MAX / 2,
    ensures
        r@ == base64_url_encoded(input@),
        r@.len() == unpadded_len(input@.len()),
        forall|i: int| 0 <= i < r@.len() ==> is_url_safe_base64_char(#[trigger] r@[i]),
        base64_url_decoded(encode_utf8(r@)) == ok_bytes(input@),
{
    base64::encode_config(input, base64::URL_SAFE_NO_PAD)
}

/// Calls `base64::decode_config` with `URL_SAFE_NO_PAD`, the error turned into
/// its text. Trusted: the result is the named decoding of `input`.
/// `decode_config` panics only when `input.len() + 3` or, counting chunks of
/// eight, `input.len() + 7` overflows, which the `requires` leaves out.
#[verifier::external_body]
pub(crate) fn decode_base64_url(input: &[u8]) -> (r: Result<Vec<u8>, String>)
    requires
        input@.len() <= usize::MAX - 7,
    ensures
        base64_url_decoded(input@) == decoded_view(r),
{
    match base64::decode_config(input, base64::URL_SAFE_NO_PAD) {
        Ok(v) => Ok(v),
        Err(e) => Err(e.to_string()),
    }
}

} // verus!
