//! The request form of post editing.

use vstd::prelude::*;

use crate::common::error::{error_view, ApiError, ErrorStatus};
use crate::common::{url_parsed, PostContentView, PostId};
use crate::create_post::api::content_from_request;
use super::Command;

verus! {

#[derive(Debug)]
pub struct RequestDto {
    pub id: u64,
    pub post: Option<String>,
    pub url: Option<String>,
}

/// The edit a request asks for: the post and exactly one of a text and a link.
pub fn to_input(request: RequestDto) -> (r: Result<Command, ApiError>)
    ensures
        match (request.post, request.url) {
            (Some(text), None) => r matches Ok(c) && c.id == PostId(request.id)
                && c.new_content@ == PostContentView::Post(text@),
            (None, Some(link)) => match url_parsed(link@) {
                Ok(serialization) => r matches Ok(c) && c.id == PostId(request.id)
                    && c.new_content@ == PostContentView::Url(serialization),
                Err(reason) => r matches Err(e) && e@ == error_view(
                    ErrorStatus::UnprocessableEntity,
                    "URL_INVALID: "@ + reason,
                ),
            },
            _ => r matches Err(e) && e@ == error_view(
                ErrorStatus::BadRequest,
                "ONLY_EXACT_ONE_OF_POST_URL"@,
            ),
        },
{
    match content_from_request(request.post, request.url) {
        Ok(new_content) => Ok(Command { id: PostId(request.id), new_content }),
        Err(e) => Err(e),
    }
}

} // verus!
