//! Identity tokens: what a token carries, how it is sealed and read back, and
//! which identities each kind of endpoint accepts.
//!
//! A token is the URL-safe unpadded base64 of a 12-byte nonce followed by the
//! AES-256-GCM sealing of a 17-byte payload: a header byte (1 for a user, 2
//! for an administrator), the identifier in eight little-endian bytes, and the
//! expiration time in eight little-endian bytes.

use vstd::bytes::{
    lemma_auto_spec_u64_to_from_le_bytes, spec_u64_from_le_bytes, spec_u64_to_le_bytes,
    u64_from_le_bytes, u64_to_le_bytes,
};
use vstd::prelude::*;
use vstd::utf8::{encode_utf8, is_ascii_chars};

use crate::common::error::{
    api_error, error_view, identity_expired, result_view, unauthenticated, user_only, ApiError,
    ApiErrorView, ErrorStatus,
};
use crate::common::utils::base64url::{
    base64_url_decoded, base64_url_encoded, decode_base64_url, encode_base64_url,
    is_url_safe_base64_char,
};
use crate::common::utils::crypto::{
    aes256gcm_decrypt, aes256gcm_encrypt_detached, aes256gcm_opened, aes256gcm_sealed, fill_random,
};
use crate::common::{AdminId, Identity, UserId};

verus! {

pub const USER_HEADER: u8 = 1;

pub const ADMIN_HEADER: u8 = 2;

pub const NONCE_LEN: usize = 12;

pub const TAG_LEN: usize = 16;

/// Length of a token's payload: header byte, identifier, expiration time.
pub const PAYLOAD_LEN: usize = 17;

/// The identifier a payload carries (its bytes 1 to 8).
pub open spec fn payload_id(bytes: Seq<u8>) -> u64 {
    spec_u64_from_le_bytes(bytes.subrange(1, 9))
}

/// The expiration time a payload carries (its bytes 9 to 16).
pub open spec fn payload_expiration(bytes: Seq<u8>) -> u64 {
    spec_u64_from_le_bytes(bytes.subrange(9, 17))
}

/// How an endpoint treats the identity of its caller.
pub trait AuthMethod {
    type Id;

    /// The answer when the request carries no token.
    spec fn spec_no_auth_header() -> Result<Self::Id, ApiErrorView>;

    /// The answer for the payload of a valid, unexpired token.
    spec fn spec_with_auth_bytes(bytes: Seq<u8>) -> Result<Self::Id, ApiErrorView>;

    fn no_auth_header() -> (r: Result<Self::Id, ApiError>)
        ensures
            result_view(r) == Self::spec_no_auth_header(),
    ;

    fn with_auth_bytes(bytes: &[u8]) -> (r: Result<Self::Id, ApiError>)
        requires
            bytes@.len() >= 9,
        ensures
            result_view(r) == Self::spec_with_auth_bytes(bytes@),
    ;
}

/// Endpoints for signed-in users only.
pub struct UserOnly;

impl AuthMethod for UserOnly {
    type Id = UserId;

    open spec fn spec_no_auth_header() -> Result<UserId, ApiErrorView> {
        Err(error_view(ErrorStatus::Unauthorized, "UNAUTHENTICATED"@))
    }

    open spec fn spec_with_auth_bytes(bytes: Seq<u8>) -> Result<UserId, ApiErrorView> {
        if bytes[0] != USER_HEADER {
            Err(error_view(ErrorStatus::Forbidden, "USER_ONLY"@))
        } else {
            Ok(UserId(payload_id(bytes)))
        }
    }

    fn no_auth_header() -> (r: Result<UserId, ApiError>) {
        Err(unauthenticated())
    }

    fn with_auth_bytes(bytes: &[u8]) -> (r: Result<UserId, ApiError>) {
        if bytes[0] != USER_HEADER {
            Err(user_only())
        } else {
            let id = u64_from_le_bytes(&bytes[1..9]);
            Ok(UserId(id))
        }
    }
}

/// Endpoints open to everyone, guests included.
pub struct Everyone;

impl AuthMethod for Everyone {
    type Id = Identity;

    open spec fn spec_no_auth_header() -> Result<Identity, ApiErrorView> {
        Ok(Identity::Guest)
    }

    open spec fn spec_with_auth_bytes(bytes: Seq<u8>) -> Result<Identity, ApiErrorView> {
        if bytes[0] == USER_HEADER {
            Ok(Identity::User(UserId(payload_id(bytes))))
        } else if bytes[0] == ADMIN_HEADER {
            Ok(Identity::Admin(AdminId(payload_id(bytes))))
        } else {
            Err(error_view(ErrorStatus::Unauthorized, "UNAUTHENTICATED"@))
        }
    }

    fn no_auth_header() -> (r: Result<Identity, ApiError>) {
        Ok(Identity::Guest)
    }

    fn with_auth_bytes(bytes: &[u8]) -> (r: Result<Identity, ApiError>) {
        let id = u64_from_le_bytes(&bytes[1..9]);
        if bytes[0] == USER_HEADER {
            Ok(Identity::User(UserId(id)))
        } else if bytes[0] == ADMIN_HEADER {
            Ok(Identity::Admin(AdminId(id)))
        } else {
            Err(unauthenticated())
        }
    }
}

} // verus!

verus! {

pub open spec fn identity_invalid() -> ApiErrorView {
    error_view(ErrorStatus::Unauthorized, "IDENTITY_INVALID"@)
}

pub open spec fn expired() -> ApiErrorView {
    error_view(ErrorStatus::Unauthorized, "IDENTITY_EXPIRED"@)
}

/// What a token's text yields at time `now`: its payload, or why it is refused.
pub open spec fn spec_token_payload(text: Seq<u8>, key: Seq<u8>, now: u64) -> Result<
    Seq<u8>,
    ApiErrorView,
> {
    match base64_url_decoded(text) {
        Err(reason) => Err(
            error_view(ErrorStatus::Unauthorized, "IDENTITY_INVALID_BASE64: "@ + reason),
        ),
        Ok(data) => if data.len() <= NONCE_LEN {
            Err(identity_invalid())
        } else {
            match aes256gcm_opened(key, data.take(NONCE_LEN as int), data.skip(NONCE_LEN as int)) {
                None => Err(error_view(ErrorStatus::Unauthorized, "IDENTITY_INVALID: "@ + "aead::Error"@)),
                Some(payload) => if payload.len() != PAYLOAD_LEN {
                    Err(identity_invalid())
                } else if now > payload_expiration(payload) {
                    Err(expired())
                } else {
                    Ok(payload)
                },
            }
        },
    }
}

pub open spec fn bytes_option(header: Option<&[u8]>) -> Option<Seq<u8>> {
    match header {
        Some(h) => Some(h@),
        None => None,
    }
}

/// What `auth` answers for the token text of a request (if any), the key and
/// the time of the call.
pub open spec fn spec_auth<M: AuthMethod>(header: Option<Seq<u8>>, key: Seq<u8>, now: u64) -> Result<
    M::Id,
    ApiErrorView,
> {
    match header {
        None => M::spec_no_auth_header(),
        Some(text) => match spec_token_payload(text, key, now) {
            Ok(payload) => M::spec_with_auth_bytes(payload),
            Err(e) => Err(e),
        },
    }
}

/// Reads the caller's identity from the token text of the request, at time
/// `now` (milliseconds since the epoch).
pub fn auth<M: AuthMethod>(header: Option<&[u8]>, key: &[u8], now: u64) -> (r: Result<
    M::Id,
    ApiError,
>)
    requires
        key@.len() == 32,
        header matches Some(h) ==> h@.len() <= usize::MAX - 7,
    ensures
        result_view(r) == spec_auth::<M>(bytes_option(header), key@, now),
{
    let text = match header {
        None => return M::no_auth_header(),
        Some(text) => text,
    };
    let data = match decode_base64_url(text) {
        Ok(data) => data,
        Err(reason) => {
            let mut body = String::from_str("IDENTITY_INVALID_BASE64: ");
            body.append(reason.as_str());
            return Err(ApiError { status: ErrorStatus::Unauthorized, body });
        },
    };
    if data.len() <= NONCE_LEN {
        return Err(api_error(ErrorStatus::Unauthorized, "IDENTITY_INVALID"));
    }
    let (nonce, cipher) = data.as_slice().split_at(NONCE_LEN);
    proof {
        assert(nonce@ =~= data@.take(NONCE_LEN as int));
        assert(cipher@ =~= data@.skip(NONCE_LEN as int));
    }
    let payload = match aes256gcm_decrypt(key, nonce, cipher) {
        Ok(payload) => payload,
        Err(reason) => {
            let mut body = String::from_str("IDENTITY_INVALID: ");
            body.append(reason.as_str());
            return Err(ApiError { status: ErrorStatus::Unauthorized, body });
        },
    };
    if payload.len() != PAYLOAD_LEN {
        return Err(api_error(ErrorStatus::Unauthorized, "IDENTITY_INVALID"));
    }
    let expiration = u64_from_le_bytes(&payload.as_slice()[9..17]);
    if now > expiration {
        return Err(identity_expired());
    }
    M::with_auth_bytes(payload.as_slice())
}

} // verus!

verus! {

/// A payload: the identity's header byte and identifier, then the expiration.
pub open spec fn token_payload(id_bytes: Seq<u8>, expiration: u64) -> Seq<u8> {
    id_bytes + spec_u64_to_le_bytes(expiration)
}

/// The text of the token that seals `payload` under `key` with `nonce`.
pub open spec fn spec_token(key: Seq<u8>, nonce: Seq<u8>, payload: Seq<u8>) -> Seq<char> {
    let sealed = aes256gcm_sealed(key, nonce, payload);
    base64_url_encoded(nonce + sealed.0 + sealed.1)
}

/// What reading a token sealed with expiration `expiration` gives at `now`.
pub open spec fn read_back(payload: Seq<u8>, expiration: u64, now: u64) -> Result<
    Seq<u8>,
    ApiErrorView,
> {
    if now > expiration {
        Err(expired())
    } else {
        Ok(payload)
    }
}

/// An identity that a token can carry.
pub trait ToBytes {
    /// The header byte and the identifier's eight little-endian bytes.
    spec fn spec_id_bytes(&self) -> Seq<u8>;

    proof fn lemma_id_bytes_len(&self)
        ensures
            self.spec_id_bytes().len() == 9,
    ;

    /// Writes the identity into the first nine bytes of `bytes`.
    fn set_bytes(self, bytes: &mut [u8])
        requires
            old(bytes)@.len() >= 9,
        ensures
            final(bytes)@ == self.spec_id_bytes() + old(bytes)@.skip(9),
    ;
}

/// Writes a header byte and an identifier into the first nine bytes of `bytes`.
fn write_id(bytes: &mut [u8], header: u8, id: u64)
    requires
        old(bytes)@.len() >= 9,
    ensures
        final(bytes)@ == seq![header] + spec_u64_to_le_bytes(id) + old(bytes)@.skip(9),
{
    let id_bytes = u64_to_le_bytes(id);
    bytes[0] = header;
    for i in 0..8
        invariant
            id_bytes@ == spec_u64_to_le_bytes(id),
            id_bytes@.len() == 8,
            bytes@.len() == old(bytes)@.len(),
            old(bytes)@.len() >= 9,
            bytes@[0] == header,
            forall|j: int| 1 <= j < 1 + i ==> bytes@[j] == id_bytes@[j - 1],
            forall|j: int| 9 <= j < bytes@.len() ==> bytes@[j] == old(bytes)@[j],
    {
        bytes[1 + i] = id_bytes[i];
    }
    assert(bytes@ =~= seq![header] + spec_u64_to_le_bytes(id) + old(bytes)@.skip(9));
}

impl ToBytes for UserId {
    open spec fn spec_id_bytes(&self) -> Seq<u8> {
        seq![USER_HEADER] + spec_u64_to_le_bytes(self.0)
    }

    proof fn lemma_id_bytes_len(&self) {
        lemma_auto_spec_u64_to_from_le_bytes();
    }

    fn set_bytes(self, bytes: &mut [u8]) {
        write_id(bytes, USER_HEADER, self.0);
    }
}

impl ToBytes for AdminId {
    open spec fn spec_id_bytes(&self) -> Seq<u8> {
        seq![ADMIN_HEADER] + spec_u64_to_le_bytes(self.0)
    }

    proof fn lemma_id_bytes_len(&self) {
        lemma_auto_spec_u64_to_from_le_bytes();
    }

    fn set_bytes(self, bytes: &mut [u8]) {
        write_id(bytes, ADMIN_HEADER, self.0);
    }
}

/// Seals a token for `id` that expires at `expiration`, with the given nonce.
/// Read back with the same key, the token yields its payload until
/// `expiration` and is refused as expired after it.
pub fn seal_token<Id: ToBytes>(key: &[u8], nonce: &[u8], id: Id, expiration: u64) -> (r: String)
    requires
        key@.len() == 32,
        nonce@.len() == NONCE_LEN,
    ensures
        r@ == spec_token(key@, nonce@, token_payload(id.spec_id_bytes(), expiration)),
        r@.len() == 60,
        forall|i: int| 0 <= i < r@.len() ==> is_url_safe_base64_char(#[trigger] r@[i]),
        is_ascii_chars(r@),
        base64_url_decoded(encode_utf8(r@)) matches Ok(data) && data.len() == 45,
        reads_back_as(
            encode_utf8(r@),
            key@,
            token_payload(id.spec_id_bytes(), expiration),
            expiration,
        ),
{
    let ghost id_bytes = id.spec_id_bytes();
    proof {
        id.lemma_id_bytes_len();
        lemma_auto_spec_u64_to_from_le_bytes();
    }
    let mut payload: Vec<u8> = vec![0u8; PAYLOAD_LEN];
    id.set_bytes(payload.as_mut_slice());
    let expiration_bytes = u64_to_le_bytes(expiration);
    let ghost after_id = payload@;
    for i in 0..8
        invariant
            expiration_bytes@ == spec_u64_to_le_bytes(expiration),
            expiration_bytes@.len() == 8,
            payload@.len() == PAYLOAD_LEN,
            after_id.len() == PAYLOAD_LEN,
            forall|j: int| 0 <= j < 9 ==> payload@[j] == after_id[j],
            forall|j: int| 9 <= j < 9 + i ==> payload@[j] == expiration_bytes@[j - 9],
    {
        payload[9 + i] = expiration_bytes[i];
    }
    let ghost expected = token_payload(id_bytes, expiration);
    assert(after_id.subrange(0, 9) =~= id_bytes);
    assert(payload@ =~= expected);
    let (ciphertext, tag) = aes256gcm_encrypt_detached(key, nonce, payload.as_slice());
    let mut data: Vec<u8> = Vec::new();
    data.extend_from_slice(nonce);
    data.extend_from_slice(ciphertext.as_slice());
    data.extend_from_slice(tag.as_slice());
    let r = encode_base64_url(data.as_slice());
    proof {
        assert(data@ =~= nonce@ + ciphertext@ + tag@);
        assert(data@.take(NONCE_LEN as int) =~= nonce@);
        assert(data@.skip(NONCE_LEN as int) =~= ciphertext@ + tag@);
        assert(expected.subrange(9, 17) =~= spec_u64_to_le_bytes(expiration));
        assert forall|now: u64|
            #[trigger] spec_token_payload(encode_utf8(r@), key@, now) == read_back(
                expected,
                expiration,
                now,
            ) by {}
    }
    r
}

/// Mints a token for `id`, valid for `id_alive_millis` from `now`, with a
/// random nonce from the system; `None` when the system gives no randomness.
/// Read back with the same key, the token yields `id`'s payload until then
/// and is refused as expired after it.
pub fn to_fresh_token<Id: ToBytes>(key: &[u8], now: u64, id_alive_millis: u64, id: Id) -> (r: Option<String>)
    requires
        key@.len() == 32,
        now + id_alive_millis <= u64::MAX,
    ensures
        r matches Some(token) ==> {
            &&& exists|nonce: Seq<u8>|
                nonce.len() == NONCE_LEN && token@ == #[trigger] spec_token(
                    key@,
                    nonce,
                    token_payload(id.spec_id_bytes(), (now + id_alive_millis) as u64),
                )
            &&& token@.len() == 60
            &&& forall|i: int| 0 <= i < token@.len() ==> is_url_safe_base64_char(#[trigger] token@[i])
            &&& is_ascii_chars(token@)
            &&& base64_url_decoded(encode_utf8(token@)) matches Ok(data) && data.len() == 45
            &&& reads_back_as(
                encode_utf8(token@),
                key@,
                token_payload(id.spec_id_bytes(), (now + id_alive_millis) as u64),
                (now + id_alive_millis) as u64,
            )
        },
{
    let mut nonce: Vec<u8> = vec![0u8; NONCE_LEN];
    if !fill_random(&mut nonce) {
        return None;
    }
    let ghost payload = token_payload(id.spec_id_bytes(), (now + id_alive_millis) as u64);
    let r = seal_token(key, nonce.as_slice(), id, now + id_alive_millis);
    assert(r@ == spec_token(key@, nonce@, payload));
    Some(r)
}

} // verus!

verus! {

/// A token text whose payload, read at any time, is `payload` until
/// `expiration` (what `seal_token` and `to_fresh_token` ensure of theirs).
pub open spec fn reads_back_as(text: Seq<u8>, key: Seq<u8>, payload: Seq<u8>, expiration: u64) -> bool {
    forall|t: u64| #[trigger]
        spec_token_payload(text, key, t) == read_back(payload, expiration, t)
}

/// A token minted for a user identifies that user, both where only users are
/// served and where everyone is, until it expires; after that it is refused
/// as expired.
pub proof fn lemma_user_token_identifies_user(
    key: Seq<u8>,
    text: Seq<u8>,
    id: u64,
    expiration: u64,
    now: u64,
)
    requires
        reads_back_as(text, key, token_payload(UserId(id).spec_id_bytes(), expiration), expiration),
    ensures
        now <= expiration ==> spec_auth::<UserOnly>(Some(text), key, now) == Ok::<
            UserId,
            ApiErrorView,
        >(UserId(id)),
        now <= expiration ==> spec_auth::<Everyone>(Some(text), key, now) == Ok::<
            Identity,
            ApiErrorView,
        >(Identity::User(UserId(id))),
        now > expiration ==> spec_auth::<UserOnly>(Some(text), key, now) == Err::<
            UserId,
            ApiErrorView,
        >(expired()),
        now > expiration ==> spec_auth::<Everyone>(Some(text), key, now) == Err::<
            Identity,
            ApiErrorView,
        >(expired()),
{
    lemma_auto_spec_u64_to_from_le_bytes();
    let payload = token_payload(UserId(id).spec_id_bytes(), expiration);
    assert(spec_token_payload(text, key, now) == read_back(payload, expiration, now));
    assert(payload.subrange(1, 9) =~= spec_u64_to_le_bytes(id));
}

/// A token minted for an administrator identifies that administrator where
/// everyone is served, and is refused where only users are, until it
/// expires; after that it is refused as expired.
pub proof fn lemma_admin_token_identifies_admin(
    key: Seq<u8>,
    text: Seq<u8>,
    id: u64,
    expiration: u64,
    now: u64,
)
    requires
        reads_back_as(text, key, token_payload(AdminId(id).spec_id_bytes(), expiration), expiration),
    ensures
        now <= expiration ==> spec_auth::<Everyone>(Some(text), key, now) == Ok::<
            Identity,
            ApiErrorView,
        >(Identity::Admin(AdminId(id))),
        now <= expiration ==> spec_auth::<UserOnly>(Some(text), key, now) == Err::<
            UserId,
            ApiErrorView,
        >(error_view(ErrorStatus::Forbidden, "USER_ONLY"@)),
        now > expiration ==> spec_auth::<Everyone>(Some(text), key, now) == Err::<
            Identity,
            ApiErrorView,
        >(expired()),
{
    lemma_auto_spec_u64_to_from_le_bytes();
    let payload = token_payload(AdminId(id).spec_id_bytes(), expiration);
    assert(spec_token_payload(text, key, now) == read_back(payload, expiration, now));
    assert(payload.subrange(1, 9) =~= spec_u64_to_le_bytes(id));
}

} // verus!
