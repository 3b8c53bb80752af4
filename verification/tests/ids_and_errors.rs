use rustpost_api::common::error::{
    guest_only, identity_expired, invalid_url, password_empty, password_too_long,
    password_too_short, title_empty, title_too_long, title_too_short, unauthenticated,
    unauthorized, user_name_contains_illegal_character, user_name_empty, user_name_too_long,
    user_name_too_short, user_only, ErrorStatus,
};
use rustpost_api::common::utils::{handle_internal, parse_id, format_id, Invalid};

#[test]
fn error_answers_carry_status_and_body() {
    let e = unauthenticated();
    assert_eq!(e.status, ErrorStatus::Unauthorized);
    assert_eq!(e.body, "UNAUTHENTICATED");
    let e = identity_expired();
    assert_eq!(e.status, ErrorStatus::Unauthorized);
    assert_eq!(e.body, "IDENTITY_EXPIRED");
    let e = unauthorized();
    assert_eq!(e.status, ErrorStatus::Forbidden);
    assert_eq!(e.body, "UNAUTHORIZED");
    let e = guest_only();
    assert_eq!(e.status, ErrorStatus::Forbidden);
    assert_eq!(e.body, "GUEST_ONLY");
    let e = user_only();
    assert_eq!(e.status, ErrorStatus::Forbidden);
    assert_eq!(e.body, "USER_ONLY");
    let e = handle_internal();
    assert_eq!(e.status, ErrorStatus::InternalServerError);
    assert_eq!(e.body, "");
}

#[test]
fn validation_failures_keep_the_value() {
    let cases: Vec<(Invalid<String>, &str)> = vec![
        (user_name_empty("a".to_string()), "USER_NAME_EMPTY"),
        (user_name_too_short("a".to_string()), "USER_NAME_TOO_SHORT"),
        (user_name_too_long("a".to_string()), "USER_NAME_TOO_LONG"),
        (user_name_contains_illegal_character("a".to_string()), "USER_NAME_ILLEGAL"),
        (title_empty("a".to_string()), "TITLE_EMPTY"),
        (title_too_short("a".to_string()), "TITLE_TOO_SHORT"),
        (title_too_long("a".to_string()), "TITLE_TOO_LONG"),
        (password_empty("a".to_string()), "PASSWORD_EMPTY"),
        (password_too_short("a".to_string()), "PASSWORD_EMPTY"),
        (password_too_long("a".to_string()), "PASSWORD_TOO_LONG"),
    ];
    for (invalid, body) in cases {
        assert_eq!(invalid.value, "a");
        assert_eq!(invalid.body, body);
    }
    let invalid = invalid_url("x".to_string(), "relative URL without a base");
    assert_eq!(invalid.body, "URL_INVALID: relative URL without a base");
}

#[test]
fn invalid_values_turn_into_answers() {
    let e = Invalid::new(3u8, "TITLE_EMPTY".to_string()).unprocessable_entity();
    assert_eq!(e.status, ErrorStatus::UnprocessableEntity);
    assert_eq!(e.body, "TITLE_EMPTY");
    let e = Invalid::new(3u8, "TITLE_EMPTY".to_string()).persisted_invalid();
    assert_eq!(e.status, ErrorStatus::InternalServerError);
    assert_eq!(e.body, "");
}

#[test]
fn format_id_is_unpadded_url_safe_base64_of_little_endian_bytes() {
    assert_eq!(format_id(0), "AAAAAAAAAAA");
    assert_eq!(format_id(1), "AQAAAAAAAAA");
    assert_eq!(format_id(u64::MAX), "__________8");
}

#[test]
fn parse_id_reads_back_format_id() {
    for id in [0u64, 1, 255, 256, 0x0123_4567_89ab_cdef, u64::MAX] {
        assert_eq!(parse_id(&format_id(id)).unwrap(), id);
    }
}

#[test]
fn parse_id_refuses_bad_text() {
    let e = parse_id("AAAA").unwrap_err();
    assert_eq!(e.status, ErrorStatus::BadRequest);
    assert_eq!(e.body, "INVALID_ID");
    let e = parse_id("!!").unwrap_err();
    assert_eq!(e.status, ErrorStatus::BadRequest);
    assert_eq!(e.body, "INVALID_ID: Invalid byte 33, offset 0.");
    let e = parse_id("AAAAAAAAAAAA").unwrap_err();
    assert_eq!(e.status, ErrorStatus::BadRequest);
    assert_eq!(e.body, "INVALID_ID");
}
