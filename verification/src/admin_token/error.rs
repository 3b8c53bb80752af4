//! Errors of the administrator sign-in.

use vstd::prelude::*;

use crate::common::error::{api_error, error_view, ApiError, ErrorStatus};

verus! {

pub fn id_or_password_incorrect() -> (r: ApiError)
    ensures
        r@ == error_view(ErrorStatus::Forbidden, "ID_OR_PASSWORD_INCORRECT"@),
{
    api_error(ErrorStatus::Forbidden, "ID_OR_PASSWORD_INCORRECT")
}

} // verus!
