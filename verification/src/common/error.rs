//! Errors answered to a client, and the validation failures of user input.

use vstd::prelude::*;

use crate::common::utils::Invalid;

verus! {

/// The HTTP status class of an error answer.
#[derive(Clone, Copy, Debug, PartialEq, Eq, Structural)]
pub enum ErrorStatus {
    BadRequest,
    Unauthorized,
    Forbidden,
    NotFound,
    Conflict,
    UnprocessableEntity,
    InternalServerError,
}

/// An error answer: a status and the text of the body.
#[derive(Debug)]
pub struct ApiError {
    pub status: ErrorStatus,
    pub body: String,
}

/// What an error answer is, as a value.
pub struct ApiErrorView {
    pub status: ErrorStatus,
    pub body: Seq<char>,
}

impl View for ApiError {
    type V = ApiErrorView;

    open spec fn view(&self) -> ApiErrorView {
        ApiErrorView { status: self.status, body: self.body@ }
    }
}

pub open spec fn error_view(status: ErrorStatus, body: Seq<char>) -> ApiErrorView {
    ApiErrorView { status, body }
}

/// A result whose error is taken by its view.
pub open spec fn result_view<T>(r: Result<T, ApiError>) -> Result<T, ApiErrorView> {
    match r {
        Ok(t) => Ok(t),
        Err(e) => Err(e@),
    }
}

/// Builds an error answer from a status and a literal body.
pub fn api_error(status: ErrorStatus, body: &str) -> (r: ApiError)
    ensures
        r@ == error_view(status, body@),
{
    ApiError { status, body: String::from_str(body) }
}

} // verus!

verus! {

/// The caller presented no identity where one is needed.
pub fn unauthenticated() -> (r: ApiError)
    ensures
        r@ == error_view(ErrorStatus::Unauthorized, "UNAUTHENTICATED"@),
{
    api_error(ErrorStatus::Unauthorized, "UNAUTHENTICATED")
}

/// The caller's identity token has passed its expiration time.
pub fn identity_expired() -> (r: ApiError)
    ensures
        r@ == error_view(ErrorStatus::Unauthorized, "IDENTITY_EXPIRED"@),
{
    api_error(ErrorStatus::Unauthorized, "IDENTITY_EXPIRED")
}

pub fn user_name_empty(value: String) -> (r: Invalid<String>)
    ensures
        r.value == value,
        r.body@ == "USER_NAME_EMPTY"@,
{
    Invalid::new(value, String::from_str("USER_NAME_EMPTY"))
}

pub fn user_name_too_short(value: String) -> (r: Invalid<String>)
    ensures
        r.value == value,
        r.body@ == "USER_NAME_TOO_SHORT"@,
{
    Invalid::new(value, String::from_str("USER_NAME_TOO_SHORT"))
}

pub fn user_name_too_long(value: String) -> (r: Invalid<String>)
    ensures
        r.value == value,
        r.body@ == "USER_NAME_TOO_LONG"@,
{
    Invalid::new(value, String::from_str("USER_NAME_TOO_LONG"))
}

pub fn user_name_contains_illegal_character(value: String) -> (r: Invalid<String>)
    ensures
        r.value == value,
        r.body@ == "USER_NAME_ILLEGAL"@,
{
    Invalid::new(value, String::from_str("USER_NAME_ILLEGAL"))
}

pub fn title_empty(value: String) -> (r: Invalid<String>)
    ensures
        r.value == value,
        r.body@ == "TITLE_EMPTY"@,
{
    Invalid::new(value, String::from_str("TITLE_EMPTY"))
}

pub fn title_too_short(value: String) -> (r: Invalid<String>)
    ensures
        r.value == value,
        r.body@ == "TITLE_TOO_SHORT"@,
{
    Invalid::new(value, String::from_str("TITLE_TOO_SHORT"))
}

pub fn title_too_long(value: String) -> (r: Invalid<String>)
    ensures
        r.value == value,
        r.body@ == "TITLE_TOO_LONG"@,
{
    Invalid::new(value, String::from_str("TITLE_TOO_LONG"))
}

pub fn password_empty(value: String) -> (r: Invalid<String>)
    ensures
        r.value == value,
        r.body@ == "PASSWORD_EMPTY"@,
{
    Invalid::new(value, String::from_str("PASSWORD_EMPTY"))
}

/// A too short password is answered with the same body as an empty one.
pub fn password_too_short(value: String) -> (r: Invalid<String>)
    ensures
        r.value == value,
        r.body@ == "PASSWORD_EMPTY"@,
{
    Invalid::new(value, String::from_str("PASSWORD_EMPTY"))
}

pub fn password_too_long(value: String) -> (r: Invalid<String>)
    ensures
        r.value == value,
        r.body@ == "PASSWORD_TOO_LONG"@,
{
    Invalid::new(value, String::from_str("PASSWORD_TOO_LONG"))
}

/// A URL that did not parse; `reason` is the parser's description of the failure.
pub fn invalid_url(value: String, reason: &str) -> (r: Invalid<String>)
    ensures
        r.value == value,
        r.body@ == "URL_INVALID: "@ + reason@,
{
    let mut body = String::from_str("URL_INVALID: ");
    body.append(reason);
    Invalid::new(value, body)
}

/// The caller's identity does not allow the request.
pub fn unauthorized() -> (r: ApiError)
    ensures
        r@ == error_view(ErrorStatus::Forbidden, "UNAUTHORIZED"@),
{
    api_error(ErrorStatus::Forbidden, "UNAUTHORIZED")
}

pub fn guest_only() -> (r: ApiError)
    ensures
        r@ == error_view(ErrorStatus::Forbidden, "GUEST_ONLY"@),
{
    api_error(ErrorStatus::Forbidden, "GUEST_ONLY")
}

pub fn user_only() -> (r: ApiError)
    ensures
        r@ == error_view(ErrorStatus::Forbidden, "USER_ONLY"@),
{
    api_error(ErrorStatus::Forbidden, "USER_ONLY")
}

} // verus!
