//! Errors of the registration.

use vstd::prelude::*;

use crate::common::error::{api_error, error_view, ApiError, ErrorStatus};

verus! {

pub fn user_name_already_exists() -> (r: ApiError)
    ensures
        r@ == error_view(ErrorStatus::Conflict, "USER_NAME_ALREADY_EXISTS"@),
{
    api_error(ErrorStatus::Conflict, "USER_NAME_ALREADY_EXISTS")
}

} // verus!
