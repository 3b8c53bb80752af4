//! The request and answer forms of the registration.

use vstd::prelude::*;

use crate::common::error::{error_view, ApiError, ErrorStatus};
use crate::common::{valid_password, valid_user_name, Password, UserName};
use super::Command;

verus! {

#[derive(Debug)]
pub struct RequestDto {
    pub user_name: String,
    pub password: String,
}

#[derive(Debug)]
pub struct ResponseDto {
    pub token: String,
}

/// The registration a request asks for: a valid user name and a valid
/// password, checked in that order.
pub fn to_input(request: RequestDto) -> (r: Result<Command, ApiError>)
    ensures
        !valid_user_name(request.user_name@) ==> (r matches Err(e) && e@ == error_view(
            ErrorStatus::UnprocessableEntity,
            "USER_NAME_EMPTY"@,
        )),
        valid_user_name(request.user_name@) && !valid_password(request.password@) ==> (r matches Err(
            e,
        ) && e@ == error_view(ErrorStatus::UnprocessableEntity, "PASSWORD_EMPTY"@)),
        valid_user_name(request.user_name@) && valid_password(request.password@) ==> (r matches Ok(
            c,
        ) && c.user_name@ == request.user_name@ && c.password@ == request.password@),
{
    let user_name = match UserName::try_new(request.user_name) {
        Ok(name) => name,
        Err(invalid) => return Err(invalid.unprocessable_entity()),
    };
    match Password::from_plain(request.password) {
        Ok(password) => Ok(Command { user_name, password }),
        Err(invalid) => Err(invalid.unprocessable_entity()),
    }
}

pub fn output_to_response(fresh_token: String) -> (r: ResponseDto)
    ensures
        r.token@ == fresh_token@,
{
    ResponseDto { token: fresh_token }
}

} // verus!
