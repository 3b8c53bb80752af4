//! Errors of post editing.

use vstd::prelude::*;

use crate::common::error::{api_error, error_view, ApiError, ErrorStatus};

verus! {

/// The caller did not create the post.
pub fn not_creator() -> (r: ApiError)
    ensures
        r@ == error_view(ErrorStatus::Forbidden, "NOT_CREATOR"@),
{
    api_error(ErrorStatus::Forbidden, "NOT_CREATOR")
}

/// The new content is not of the post's kind (a text for a link, or the
/// other way round).
pub fn content_type_diff() -> (r: ApiError)
    ensures
        r@ == error_view(ErrorStatus::BadRequest, "CONTENT_TYPE_DIFF"@),
{
    api_error(ErrorStatus::BadRequest, "CONTENT_TYPE_DIFF")
}

} // verus!
