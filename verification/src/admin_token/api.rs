//! The request and answer forms of the administrator sign-in.

use vstd::prelude::*;
use vstd::utf8::encode_utf8;

use crate::common::error::{error_view, ApiError, ErrorStatus};
use crate::common::utils::{parse_id, spec_parse_id};
use crate::common::{valid_password, AdminId, Password};
use super::Query;

verus! {

#[derive(Debug)]
pub struct RequestDto {
    pub id: String,
    pub password: String,
}

#[derive(Debug)]
pub struct ResponseDto {
    pub token: String,
}

/// The sign-in a request asks for: the identifier in its textual form.
pub fn to_input(request: RequestDto) -> (r: Result<Query, ApiError>)
    requires
        encode_utf8(request.id@).len() <= usize::MAX - 7,
    ensures
        match spec_parse_id(encode_utf8(request.id@)) {
            Ok(n) => if valid_password(request.password@) {
                r matches Ok(q) && q.id == AdminId(n) && q.password@ == request.password@
            } else {
                r matches Err(e) && e@ == error_view(
                    ErrorStatus::UnprocessableEntity,
                    "PASSWORD_EMPTY"@,
                )
            },
            Err(e) => r matches Err(err) && err@ == e,
        },
{
    let id = match parse_id(request.id.as_str()) {
        Ok(n) => AdminId(n),
        Err(e) => return Err(e),
    };
    match Password::from_plain(request.password) {
        Ok(password) => Ok(Query { id, password }),
        Err(invalid) => Err(invalid.unprocessable_entity()),
    }
}

pub fn output_to_response(fresh_token: String) -> (r: ResponseDto)
    ensures
        r.token@ == fresh_token@,
{
    ResponseDto { token: fresh_token }
}

} // verus!
