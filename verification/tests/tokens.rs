use rustpost_api::common::error::ErrorStatus;
use rustpost_api::common::utils::auth::{auth, seal_token, to_fresh_token, Everyone, UserOnly};
use rustpost_api::common::{AdminId, Identity, UserId};

const KEY: [u8; 32] = [7u8; 32];

#[test]
fn user_token_authenticates_until_it_expires() {
    let token = to_fresh_token(&KEY, 1_000, 500, UserId(42)).unwrap();
    assert_eq!(auth::<UserOnly>(Some(token.as_bytes()), &KEY, 1_200).unwrap(), UserId(42));
    assert_eq!(auth::<UserOnly>(Some(token.as_bytes()), &KEY, 1_500).unwrap(), UserId(42));
    assert_eq!(
        auth::<Everyone>(Some(token.as_bytes()), &KEY, 1_000).unwrap(),
        Identity::User(UserId(42))
    );
    let e = auth::<UserOnly>(Some(token.as_bytes()), &KEY, 1_501).unwrap_err();
    assert_eq!(e.status, ErrorStatus::Unauthorized);
    assert_eq!(e.body, "IDENTITY_EXPIRED");
}

#[test]
fn admin_token_is_refused_where_only_users_are_served() {
    let token = to_fresh_token(&KEY, 10, 10, AdminId(9)).unwrap();
    assert_eq!(
        auth::<Everyone>(Some(token.as_bytes()), &KEY, 15).unwrap(),
        Identity::Admin(AdminId(9))
    );
    let e = auth::<UserOnly>(Some(token.as_bytes()), &KEY, 15).unwrap_err();
    assert_eq!(e.status, ErrorStatus::Forbidden);
    assert_eq!(e.body, "USER_ONLY");
}

#[test]
fn missing_token_is_a_guest_or_unauthenticated() {
    assert_eq!(auth::<Everyone>(None, &KEY, 0).unwrap(), Identity::Guest);
    let e = auth::<UserOnly>(None, &KEY, 0).unwrap_err();
    assert_eq!(e.status, ErrorStatus::Unauthorized);
    assert_eq!(e.body, "UNAUTHENTICATED");
}

#[test]
fn malformed_tokens_are_refused() {
    let e = auth::<Everyone>(Some(b"!!!"), &KEY, 0).unwrap_err();
    assert_eq!(e.status, ErrorStatus::Unauthorized);
    assert!(e.body.starts_with("IDENTITY_INVALID_BASE64: "));
    let e = auth::<Everyone>(Some(b"AAAAAAAAAAAAAAAA"), &KEY, 0).unwrap_err();
    assert_eq!(e.body, "IDENTITY_INVALID");
    let token = to_fresh_token(&KEY, 0, 100, UserId(1)).unwrap();
    let other_key = [8u8; 32];
    let e = auth::<Everyone>(Some(token.as_bytes()), &other_key, 0).unwrap_err();
    assert_eq!(e.status, ErrorStatus::Unauthorized);
    assert_eq!(e.body, "IDENTITY_INVALID: aead::Error");
}

#[test]
fn sealing_is_determined_by_its_nonce() {
    let nonce = [3u8; 12];
    let a = seal_token(&KEY, &nonce, UserId(5), 77);
    let b = seal_token(&KEY, &nonce, UserId(5), 77);
    assert_eq!(a, b);
    assert_eq!(a.len(), 60);
    let c = seal_token(&KEY, &nonce, UserId(6), 77);
    assert_ne!(a, c);
    assert_eq!(auth::<UserOnly>(Some(a.as_bytes()), &KEY, 77).unwrap(), UserId(5));
    let fresh1 = to_fresh_token(&KEY, 0, 1, UserId(5)).unwrap();
    let fresh2 = to_fresh_token(&KEY, 0, 1, UserId(5)).unwrap();
    assert_ne!(fresh1, fresh2);
    assert_eq!(fresh1.len(), 60);
    assert!(fresh1.chars().all(|c| c.is_ascii_alphanumeric() || c == '-' || c == '_'));
    assert_eq!(base64::decode_config(&fresh1, base64::URL_SAFE_NO_PAD).unwrap().len(), 45);
}
