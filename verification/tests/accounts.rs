use rustpost_api::admin_token;
use rustpost_api::common::error::ErrorStatus;
use rustpost_api::common::{AdminId, Identity, Password, UserId, UserName};
use rustpost_api::get_identity::api::output_to_response;
use rustpost_api::get_identity::{needs_user_name, workflow, IdentityInfo};
use rustpost_api::user_register::{encrypted_password, insert_error, Command};
use rustpost_api::user_token;
use rustpost_api::user_register;

#[test]
fn password_hash_verifies_against_its_password() {
    let password = Password::from_plain("s3cret".to_string()).unwrap();
    let hash = password.to_encrypted(4).unwrap();
    assert!(password.verify_encrypted(&hash));
    assert!(!Password::from_plain("other".to_string()).unwrap().verify_encrypted(&hash));
    assert!(!password.verify_encrypted("not a hash"));
    assert!(Password::from_plain("a\0b".to_string()).unwrap().to_encrypted(4).is_none());
    assert!(password.to_encrypted(3).is_none());
    assert!(password.to_encrypted(32).is_none());
    // A hash text that is not ASCII matches nothing.
    let odd = format!("$2b$12${}é{}", "a".repeat(21), "a".repeat(30));
    assert!(!password.verify_encrypted(&odd));
}

#[test]
fn empty_inputs_are_refused() {
    let e = Password::from_plain(String::new()).unwrap_err();
    assert_eq!(e.body, "PASSWORD_EMPTY");
    let request = user_register::api::RequestDto { user_name: String::new(), password: "pw".to_string() };
    let e = user_register::api::to_input(request).unwrap_err();
    assert_eq!((e.status, e.body.as_str()), (ErrorStatus::UnprocessableEntity, "USER_NAME_EMPTY"));
    let request = user_register::api::RequestDto { user_name: "g".to_string(), password: String::new() };
    let e = user_register::api::to_input(request).unwrap_err();
    assert_eq!((e.status, e.body.as_str()), (ErrorStatus::UnprocessableEntity, "PASSWORD_EMPTY"));
    let request = user_token::api::RequestDto { userName: String::new(), password: String::new() };
    let e = user_token::api::to_input(request).unwrap_err();
    assert_eq!(e.body, "USER_NAME_EMPTY");
    let request = admin_token::api::RequestDto { id: "BQAAAAAAAAA".to_string(), password: String::new() };
    let e = admin_token::api::to_input(request).unwrap_err();
    assert_eq!((e.status, e.body.as_str()), (ErrorStatus::UnprocessableEntity, "PASSWORD_EMPTY"));
    let request = user_token::api::RequestDto { userName: "h".to_string(), password: "pw".to_string() };
    let query = user_token::api::to_input(request).unwrap();
    assert_eq!(query.user_name.as_str(), "h");
}

#[test]
fn administrator_signs_in_with_the_right_password() {
    let hash = Password::from_plain("pw".to_string()).unwrap().to_encrypted(4).unwrap();
    let query = || admin_token::Query { id: AdminId(5), password: Password::from_plain("pw".to_string()).unwrap() };
    assert_eq!(admin_token::workflow(query(), Some(hash.clone())).unwrap(), AdminId(5));
    let e = admin_token::workflow(query(), None).unwrap_err();
    assert_eq!((e.status, e.body.as_str()), (ErrorStatus::Forbidden, "ID_OR_PASSWORD_INCORRECT"));
    let wrong = admin_token::Query { id: AdminId(5), password: Password::from_plain("no".to_string()).unwrap() };
    let e = admin_token::workflow(wrong, Some(hash)).unwrap_err();
    assert_eq!(e.body, "ID_OR_PASSWORD_INCORRECT");
}

#[test]
fn administrator_request_names_the_id_textually() {
    let request = admin_token::api::RequestDto { id: "BQAAAAAAAAA".to_string(), password: "pw".to_string() };
    let query = admin_token::api::to_input(request).unwrap();
    assert_eq!(query.id, AdminId(5));
    let request = admin_token::api::RequestDto { id: "x".to_string(), password: "pw".to_string() };
    assert_eq!(admin_token::api::to_input(request).unwrap_err().status, ErrorStatus::BadRequest);
}

#[test]
fn user_signs_in_with_the_right_password() {
    let hash = Password::from_plain("pw".to_string()).unwrap().to_encrypted(4).unwrap();
    let query = |p: &str| user_token::Query { user_name: UserName::try_new("dave".to_string()).unwrap(), password: Password::from_plain(p.to_string()).unwrap() };
    assert_eq!(user_token::workflow(query("pw"), Some((8, hash.clone()))).unwrap(), UserId(8));
    let e = user_token::workflow(query("nope"), Some((8, hash))).unwrap_err();
    assert_eq!((e.status, e.body.as_str()), (ErrorStatus::Forbidden, "USER_NAME_OR_PASSWORD_INCORRECT"));
    assert!(user_token::workflow(query("pw"), None).is_err());
}

#[test]
fn registration_conflicts_on_the_user_name_only() {
    let e = insert_error(Some("23000"), "Duplicate entry 'x' for key 'users.username'");
    assert_eq!((e.status, e.body.as_str()), (ErrorStatus::Conflict, "USER_NAME_ALREADY_EXISTS"));
    let e = insert_error(Some("23000"), "Duplicate entry '1' for key 'users.PRIMARY'");
    assert_eq!(e.status, ErrorStatus::InternalServerError);
    let e = insert_error(None, "for key 'users.username'");
    assert_eq!(e.status, ErrorStatus::InternalServerError);
    let command = Command { user_name: UserName::try_new("eve".to_string()).unwrap(), password: Password::from_plain("pw".to_string()).unwrap() };
    let hash = encrypted_password(&command, 4).unwrap();
    assert!(command.password.verify_encrypted(&hash));
}

#[test]
fn identity_answers_who_calls() {
    assert_eq!(needs_user_name(Identity::User(UserId(3))), Some(UserId(3)));
    assert_eq!(needs_user_name(Identity::Guest), None);
    let info = workflow(Identity::User(UserId(3)), Some("frank".to_string())).unwrap();
    let response = output_to_response(info);
    assert_eq!(response.user.as_ref().unwrap().name, "frank");
    assert_eq!(response.user.as_ref().unwrap().id, "AwAAAAAAAAA");
    assert!(response.admin.is_none());
    let response = output_to_response(workflow(Identity::Admin(AdminId(3)), None).unwrap());
    assert_eq!(response.admin.unwrap().id, "AwAAAAAAAAA");
    assert!(matches!(workflow(Identity::Guest, None).unwrap(), IdentityInfo::Guest));
    let e = workflow(Identity::User(UserId(3)), None).unwrap_err();
    assert_eq!(e.status, ErrorStatus::InternalServerError);
    let e = workflow(Identity::User(UserId(3)), Some(String::new())).unwrap_err();
    assert_eq!((e.status, e.body.as_str()), (ErrorStatus::InternalServerError, ""));
}

#[test]
fn password_hash_carries_the_cost_and_the_salt() {
    let password = Password::from_plain("pw".to_string()).unwrap();
    let salt = [9u8; 16];
    let a = password.to_encrypted_with_salt(5, &salt).unwrap();
    let b = password.to_encrypted_with_salt(5, &salt).unwrap();
    assert_eq!(a, b);
    assert_eq!(a.len(), 60);
    assert!(a.starts_with("$2b$05$"));
    assert!(password.verify_encrypted(&a));
    assert_ne!(a, password.to_encrypted_with_salt(5, &[8u8; 16]).unwrap());
    assert!(password.to_encrypted_with_salt(3, &salt).is_none());
    let random = password.to_encrypted(4).unwrap();
    assert!(random.starts_with("$2b$04$"));
    let command = Command {
        user_name: UserName::try_new("ivy".to_string()).unwrap(),
        password: Password::from_plain("pw".to_string()).unwrap(),
    };
    assert!(encrypted_password(&command, 6).unwrap().starts_with("$2b$06$"));
    assert!(encrypted_password(&command, 40).is_none());
}
