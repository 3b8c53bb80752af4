//! Creating a post: a title and a content, stored under a fresh identifier.

use vstd::prelude::*;

use crate::common::error::{error_view, ApiError, ErrorStatus};
use crate::common::utils::{duplicate_entry, handle_internal, is_duplicate_code};
use crate::common::{PostContent, Title};

pub mod api;
pub mod error;

verus! {

#[derive(Debug)]
pub struct PostInfo {
    pub title: Title,
    pub content: PostContent,
}

#[derive(Debug)]
pub struct Command {
    pub info: PostInfo,
}

/// The answer when storing the post failed with the given error code: a
/// duplicate (of the unique title) is a conflict, anything else an internal
/// error.
pub fn store_error(code: Option<&str>) -> (r: ApiError)
    ensures
        is_duplicate_code(code) ==> r@ == error_view(ErrorStatus::Conflict, "DUPLICATE_TITLE"@),
        !is_duplicate_code(code) ==> r@ == error_view(ErrorStatus::InternalServerError, ""@),
{
    if duplicate_entry(code) {
        error::duplicate_title()
    } else {
        handle_internal()
    }
}

} // verus!
