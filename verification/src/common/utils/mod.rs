//! Validation failures, internal errors, and the textual form of identifiers.

use vstd::prelude::*;

use vstd::bytes::{
    lemma_auto_spec_u64_to_from_le_bytes, spec_u64_from_le_bytes, spec_u64_to_le_bytes,
    u64_from_le_bytes, u64_to_le_bytes,
};
use vstd::string::StringSliceAdditionalSpecFns;
use vstd::utf8::{encode_utf8, is_ascii_chars};

use crate::common::error::{api_error, error_view, result_view, ApiError, ApiErrorView, ErrorStatus};

pub mod auth;
pub mod base64url;
pub mod crypto;
pub mod db;

use self::base64url::{is_url_safe_base64_char, base64_url_decoded, base64_url_encoded, decode_base64_url, encode_base64_url};

verus! {

/// A value that failed validation, with the reason answered to the client.
#[derive(Debug)]
pub struct Invalid<V> {
    pub value: V,
    pub body: String,
}

impl<V> Invalid<V> {
    pub fn new(value: V, body: String) -> (r: Invalid<V>)
        ensures
            r.value == value,
            r.body@ == body@,
    {
        Invalid { value, body }
    }

    /// The answer to a request whose input failed validation.
    pub fn unprocessable_entity(self) -> (r: ApiError)
        ensures
            r@ == error_view(ErrorStatus::UnprocessableEntity, self.body@),
    {
        ApiError { status: ErrorStatus::UnprocessableEntity, body: self.body }
    }

    /// The answer when a stored value fails validation: an internal error
    /// with an empty body.
    pub fn persisted_invalid(self) -> (r: ApiError)
        ensures
            r@ == error_view(ErrorStatus::InternalServerError, ""@),
    {
        handle_internal()
    }
}

/// The answer to a failure of the storage or of another dependency: an
/// internal error with an empty body.
pub fn handle_internal() -> (r: ApiError)
    ensures
        r@ == error_view(ErrorStatus::InternalServerError, ""@),
{
    api_error(ErrorStatus::InternalServerError, "")
}

} // verus!

verus! {

/// What `parse_id` answers for the bytes of its text.
pub open spec fn spec_parse_id(text: Seq<u8>) -> Result<u64, ApiErrorView> {
    match base64_url_decoded(text) {
        Err(reason) => Err(error_view(ErrorStatus::BadRequest, "INVALID_ID: "@ + reason)),
        Ok(bytes) => if bytes.len() == 8 {
            Ok(spec_u64_from_le_bytes(bytes))
        } else {
            Err(error_view(ErrorStatus::BadRequest, "INVALID_ID"@))
        },
    }
}

/// The textual form of `id` (see `format_id`).
pub open spec fn id_text(id: u64) -> Seq<char> {
    base64_url_encoded(spec_u64_to_le_bytes(id))
}

/// The textual form of an identifier: its eight little-endian bytes in
/// URL-safe unpadded base64. Reading the text back with `parse_id` gives `id`.
pub fn format_id(id: u64) -> (r: String)
    ensures
        r@ == id_text(id),
        r@.len() == 11,
        forall|i: int| 0 <= i < r@.len() ==> is_url_safe_base64_char(#[trigger] r@[i]),
        is_ascii_chars(r@),
        spec_parse_id(encode_utf8(r@)) == Ok::<u64, ApiErrorView>(id),
{
    let bytes = u64_to_le_bytes(id);
    let r = encode_base64_url(bytes.as_slice());
    proof {
        lemma_auto_spec_u64_to_from_le_bytes();
    }
    r
}

/// Reads an identifier from its textual form (see `format_id`): the text must
/// decode as URL-safe unpadded base64 to exactly eight bytes.
pub fn parse_id(from: &str) -> (r: Result<u64, ApiError>)
    requires
        from.spec_bytes().len() <= usize::MAX - 7,
    ensures
        result_view(r) == spec_parse_id(from.spec_bytes()),
{
    let bytes = match decode_base64_url(from.as_bytes()) {
        Ok(bytes) => bytes,
        Err(reason) => {
            let mut body = String::from_str("INVALID_ID: ");
            body.append(reason.as_str());
            return Err(ApiError { status: ErrorStatus::BadRequest, body });
        },
    };
    if bytes.len() != 8 {
        return Err(api_error(ErrorStatus::BadRequest, "INVALID_ID"));
    }
    Ok(u64_from_le_bytes(bytes.as_slice()))
}

} // verus!

verus! {

/// The MySQL error code of a duplicate entry (an integrity constraint violation).
pub open spec fn is_duplicate_code(code: Option<&str>) -> bool {
    code matches Some(c) && c@ == "23000"@
}

/// Whether a storage error code names a duplicate entry.
pub fn duplicate_entry(code: Option<&str>) -> (r: bool)
    ensures
        r == is_duplicate_code(code),
{
    match code {
        Some(c) => String::from_str(c) == String::from_str("23000"),
        None => false,
    }
}

/// `suffix` ends `text`, byte for byte.
pub open spec fn is_byte_suffix(text: Seq<u8>, suffix: Seq<u8>) -> bool {
    suffix.len() <= text.len() && text.skip(text.len() - suffix.len()) == suffix
}

/// Whether `text` ends with `suffix` (compared as bytes, as `str::ends_with` does).
pub fn ends_with(text: &str, suffix: &str) -> (r: bool)
    ensures
        r == is_byte_suffix(text.spec_bytes(), suffix.spec_bytes()),
{
    let t = text.as_bytes();
    let s = suffix.as_bytes();
    if s.len() > t.len() {
        return false;
    }
    let offset = t.len() - s.len();
    let n = s.len();
    for i in 0..n
        invariant
            n == s@.len(),
            t@.len() == t.len(),
            offset + s@.len() == t@.len(),
            t@ == text.spec_bytes(),
            s@ == suffix.spec_bytes(),
            forall|j: int| 0 <= j < i ==> t@[offset + j] == s@[j],
    {
        if t[offset + i] != s[i] {
            assert(t@.skip(offset as int)[i as int] != s@[i as int]);
            return false;
        }
    }
    assert(t@.skip(offset as int) =~= s@);
    true
}

} // verus!
