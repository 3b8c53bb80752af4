//! AES-256-GCM sealing of identity tokens, random nonces, and bcrypt password
//! hashes, as the outside crates compute them.

use aes_gcm::aead::generic_array::GenericArray;
use aes_gcm::aead::{Aead, AeadInPlace, NewAead};
use rand::RngCore;
use vstd::utf8::is_ascii_chars;
use vstd::prelude::*;

verus! {

/// What AES-256-GCM decryption (`aes_gcm::Aes256Gcm`, `Aead::decrypt`, empty
/// associated data) returns for a key, a nonce and a ciphertext with its
/// appended tag: the plaintext, or `None` when the tag does not authenticate.
pub uninterp spec fn aes256gcm_opened(key: Seq<u8>, nonce: Seq<u8>, ciphertext: Seq<u8>) -> Option<
    Seq<u8>,
>;

/// What `AeadInPlace::encrypt_in_place_detached` of `aes_gcm::Aes256Gcm`
/// (empty associated data) produces for a key, a nonce and a plaintext: the
/// ciphertext and the detached tag.
pub uninterp spec fn aes256gcm_sealed(key: Seq<u8>, nonce: Seq<u8>, plaintext: Seq<u8>) -> (
    Seq<u8>,
    Seq<u8>,
);

/// A decryption result taken by its view.
pub open spec fn opened_view(r: Result<Vec<u8>, String>) -> Option<Seq<u8>> {
    match r {
        Ok(v) => Some(v@),
        Err(_) => None,
    }
}

/// Calls `Aead::decrypt` of `aes_gcm::Aes256Gcm` built from `key`, the error
/// turned into its text. Trusted: the result is the named decryption; the
/// error's text is `aead::Error` (the only `Display` of `aead::Error`).
/// Building the cipher and the nonce panics on other lengths than 32 and 12,
/// which the `requires` leaves out.
#[verifier::external_body]
pub(crate) fn aes256gcm_decrypt(key: &[u8], nonce: &[u8], ciphertext: &[u8]) -> (r: Result<
    Vec<u8>,
    String,
>)
    requires
        key@.len() == 32,
        nonce@.len() == 12,
    ensures
        aes256gcm_opened(key@, nonce@, ciphertext@) == opened_view(r),
        r matches Err(e) ==> e@ == "aead::Error"@,
{
    let cipher = aes_gcm::Aes256Gcm::new(GenericArray::from_slice(key));
    match cipher.decrypt(GenericArray::from_slice(nonce), ciphertext) {
        Ok(plaintext) => Ok(plaintext),
        Err(e) => Err(e.to_string()),
    }
}

/// Calls `AeadInPlace::encrypt_in_place_detached` of `aes_gcm::Aes256Gcm`
/// built from `key`, on a copy of `plaintext`. Trusted: the result is the
/// named sealing; the ciphertext is as long as the plaintext and the tag is
/// 16 bytes long; and decrypting the ciphertext followed by its tag with the
/// same key and nonce gives the plaintext back. Encryption fails only above
/// 2^36 bytes of plaintext, which the `requires` leaves out with the key and
/// nonce lengths on which building the cipher panics.
#[verifier::external_body]
pub(crate) fn aes256gcm_encrypt_detached(key: &[u8], nonce: &[u8], plaintext: &[u8]) -> (r: (
    Vec<u8>,
    Vec<u8>,
))
    requires
        key@.len() == 32,
        nonce@.len() == 12,
        plaintext@.len() <= 0x10_0000_0000,
    ensures
        (r.0@, r.1@) == aes256gcm_sealed(key@, nonce@, plaintext@),
        r.0@.len() == plaintext@.len(),
        r.1@.len() == 16,
        aes256gcm_opened(key@, nonce@, r.0@ + r.1@) == Some(plaintext@),
{
    let cipher = aes_gcm::Aes256Gcm::new(GenericArray::from_slice(key));
    let mut buffer = plaintext.to_vec();
    let tag = cipher.encrypt_in_place_detached(GenericArray::from_slice(nonce), b"", &mut buffer)
        .unwrap();
    (buffer, tag.to_vec())
}

/// Calls `RngCore::try_fill_bytes` of `rand::rngs::OsRng` on `buf`, the
/// outcome turned into whether it succeeded. Trusted: the length is kept.
/// Nothing is said of the bytes, which are random, nor of when the system
/// fails to give randomness (then the result is `false`).
#[verifier::external_body]
pub(crate) fn fill_random(buf: &mut Vec<u8>) -> (filled: bool)
    ensures
        final(buf)@.len() == old(buf)@.len(),
{
    rand::rngs::OsRng.try_fill_bytes(buf.as_mut_slice()).is_ok()
}

/// What `bcrypt::verify(password, hash)` returns: whether `password` matches
/// `hash`, or `None` when `hash` is no bcrypt hash (or the password holds a
/// NUL byte).
pub uninterp spec fn bcrypt_verified(password: Seq<u8>, hash: Seq<char>) -> Option<bool>;

/// Calls `bcrypt::verify`, the error turned into `None`. Trusted: the result
/// is the named verification. `bcrypt::verify` slices the hash's last part at
/// a byte offset, which panics inside a multi-byte character; the `requires`
/// leaves out hashes that are not ASCII.
#[verifier::external_body]
pub(crate) fn bcrypt_verify(password: &[u8], hash: &str) -> (r: Option<bool>)
    requires
        is_ascii_chars(hash@),
    ensures
        r == bcrypt_verified(password@, hash@),
{
    bcrypt::verify(password, hash).ok()
}

/// What `bcrypt::hash_with_salt(password, cost, salt)`, formatted with
/// `format_for_version(Version::TwoB)`, gives: the hash text, or `None` when
/// bcrypt refuses the cost or the password.
pub uninterp spec fn bcrypt_hashed(password: Seq<u8>, cost: u32, salt: Seq<u8>) -> Option<Seq<char>>;

/// The two decimal digits of a cost below 100.
pub open spec fn cost_field(cost: u32) -> Seq<char> {
    seq![(48 + cost / 10) as char, (48 + cost % 10) as char]
}

/// The start of a version-2b bcrypt hash text with the given cost: `$2b$NN$`.
pub open spec fn bcrypt_prefix(cost: u32) -> Seq<char> {
    seq!['$', '2', 'b', '$'] + cost_field(cost) + seq!['$']
}

pub open spec fn text_option_view(r: Option<String>) -> Option<Seq<char>> {
    match r {
        Some(h) => Some(h@),
        None => None,
    }
}

/// Calls `bcrypt::hash_with_salt` and formats the parts with
/// `HashParts::format_for_version(Version::TwoB)`, the error turned into
/// `None`. Trusted: the result is the named hash; bcrypt refuses exactly a
/// cost outside 4..=31 and a password with a NUL byte; a hash text is ASCII,
/// 60 characters long (`$2b$`, the cost in two digits, `$`, the salt in 22
/// and the hash in 31 characters of bcrypt's base64 alphabet), and verifies
/// against the password it was made from. `bcrypt` asserts a 16-byte salt,
/// which the `requires` keeps.
#[verifier::external_body]
pub(crate) fn bcrypt_hash_with_salt(password: &[u8], cost: u32, salt: &[u8]) -> (r: Option<String>)
    requires
        salt@.len() == 16,
    ensures
        text_option_view(r) == bcrypt_hashed(password@, cost, salt@),
        (4 <= cost <= 31 && !password@.contains(0u8)) <==> r is Some,
        r matches Some(h) ==> {
            &&& is_ascii_chars(h@)
            &&& h@.len() == 60
            &&& h@.subrange(0, 7) == bcrypt_prefix(cost)
            &&& bcrypt_verified(password@, h@) == Some(true)
        },
{
    match bcrypt::hash_with_salt(password, cost, salt) {
        Ok(parts) => Some(parts.format_for_version(bcrypt::Version::TwoB)),
        Err(_) => None,
    }
}

} // verus!
