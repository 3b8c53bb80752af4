//! Errors of the post page.

use vstd::prelude::*;

use crate::common::error::{api_error, error_view, ApiError, ErrorStatus};

verus! {

/// No post has the requested identifier.
pub fn post_not_found() -> (r: ApiError)
    ensures
        r@ == error_view(ErrorStatus::NotFound, "POST_NOT_FOUND"@),
{
    api_error(ErrorStatus::NotFound, "POST_NOT_FOUND")
}

} // verus!
