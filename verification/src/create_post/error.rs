//! Errors of post creation.

use vstd::prelude::*;

use crate::common::error::{api_error, error_view, ApiError, ErrorStatus};

verus! {

pub fn duplicate_title() -> (r: ApiError)
    ensures
        r@ == error_view(ErrorStatus::Conflict, "DUPLICATE_TITLE"@),
{
    api_error(ErrorStatus::Conflict, "DUPLICATE_TITLE")
}

} // verus!
