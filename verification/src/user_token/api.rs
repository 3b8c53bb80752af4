//! The request and answer forms of the user sign-in.

use vstd::prelude::*;

use crate::common::error::{error_view, ApiError, ErrorStatus};
use crate::common::{valid_password, valid_user_name, Password, UserName};
use super::Query;

verus! {

#[allow(non_snake_case)]
#[derive(Debug)]
pub struct RequestDto {
    pub userName: String,
    pub password: String,
}

#[derive(Debug)]
pub struct ResponseDto {
    pub token: String,
}

/// The sign-in a request asks for: a valid user name and a valid password,
/// checked in that order.
pub fn to_input(request: RequestDto) -> (r: Result<Query, ApiError>)
    ensures
        !valid_user_name(request.userName@) ==> (r matches Err(e) && e@ == error_view(
            ErrorStatus::UnprocessableEntity,
            "USER_NAME_EMPTY"@,
        )),
        valid_user_name(request.userName@) && !valid_password(request.password@) ==> (r matches Err(
            e,
        ) && e@ == error_view(ErrorStatus::UnprocessableEntity, "PASSWORD_EMPTY"@)),
        valid_user_name(request.userName@) && valid_password(request.password@) ==> (r matches Ok(
            q,
        ) && q.user_name@ == request.userName@ && q.password@ == request.password@),
{
    let user_name = match UserName::try_new(request.userName) {
        Ok(name) => name,
        Err(invalid) => return Err(invalid.unprocessable_entity()),
    };
    match Password::from_plain(request.password) {
        Ok(password) => Ok(Query { user_name, password }),
        Err(invalid) => Err(invalid.unprocessable_entity()),
    }
}

pub fn output_to_response(fresh_token: String) -> (r: ResponseDto)
    ensures
        r.token@ == fresh_token@,
{
    ResponseDto { token: fresh_token }
}

} // verus!
