//! Errors of the user sign-in.

use vstd::prelude::*;

use crate::common::error::{api_error, error_view, ApiError, ErrorStatus};

verus! {

pub fn user_name_or_password_incorrect() -> (r: ApiError)
    ensures
        r@ == error_view(ErrorStatus::Forbidden, "USER_NAME_OR_PASSWORD_INCORRECT"@),
{
    api_error(ErrorStatus::Forbidden, "USER_NAME_OR_PASSWORD_INCORRECT")
}

} // verus!
