//! The request and answer forms of post creation.

use vstd::prelude::*;

use crate::common::error::{api_error, error_view, ApiError, ErrorStatus};
use crate::common::utils::{format_id, id_text};
use crate::common::{
    parse_url_outcome, url_parsed, valid_title, PostContent, PostContentView, PostId, Title,
};
use super::{Command, PostInfo};

verus! {

#[derive(Debug)]
pub struct RequestDto {
    pub title: String,
    pub post: Option<String>,
    pub url: Option<String>,
}

/// The content a request gives: exactly one of a text and a link. A link
/// that does not parse is unprocessable; giving both or neither is a bad
/// request.
pub fn content_from_request(post: Option<String>, url: Option<String>) -> (r: Result<
    PostContent,
    ApiError,
>)
    ensures
        match (post, url) {
            (Some(text), None) => r matches Ok(c) && c@ == PostContentView::Post(text@),
            (None, Some(link)) => match url_parsed(link@) {
                Ok(serialization) => r matches Ok(c) && c@ == PostContentView::Url(serialization),
                Err(reason) => r matches Err(e) && e@ == error_view(
                    ErrorStatus::UnprocessableEntity,
                    "URL_INVALID: "@ + reason,
                ),
            },
            _ => r matches Err(e) && e@ == error_view(
                ErrorStatus::BadRequest,
                "ONLY_EXACT_ONE_OF_POST_URL"@,
            ),
        },
{
    match (post, url) {
        (Some(text), None) => Ok(PostContent::Post(text)),
        (None, Some(link)) => {
            let ghost value = link@;
            let parsed = PostContent::parse_url(link);
            assert(parse_url_outcome(value, parsed));
            match parsed {
                Ok(content) => Ok(content),
                Err(invalid) => Err(invalid.unprocessable_entity()),
            }
        },
        _ => Err(api_error(ErrorStatus::BadRequest, "ONLY_EXACT_ONE_OF_POST_URL")),
    }
}

/// The creation a request asks for: a valid title, then the content.
pub fn to_input(request: RequestDto) -> (r: Result<Command, ApiError>)
    ensures
        !valid_title(request.title@) ==> (r matches Err(e) && e@ == error_view(
            ErrorStatus::UnprocessableEntity,
            "TITLE_EMPTY"@,
        )),
        valid_title(request.title@) ==> match (request.post, request.url) {
            (Some(text), None) => r matches Ok(c) && c.info.title@ == request.title@
                && c.info.content@ == PostContentView::Post(text@),
            (None, Some(link)) => match url_parsed(link@) {
                Ok(serialization) => r matches Ok(c) && c.info.title@ == request.title@
                    && c.info.content@ == PostContentView::Url(serialization),
                Err(reason) => r matches Err(e) && e@ == error_view(
                    ErrorStatus::UnprocessableEntity,
                    "URL_INVALID: "@ + reason,
                ),
            },
            _ => r matches Err(e) && e@ == error_view(
                ErrorStatus::BadRequest,
                "ONLY_EXACT_ONE_OF_POST_URL"@,
            ),
        },
{
    let title = match Title::try_new(request.title) {
        Ok(title) => title,
        Err(invalid) => return Err(invalid.unprocessable_entity()),
    };
    match content_from_request(request.post, request.url) {
        Ok(content) => Ok(Command { info: PostInfo { title, content } }),
        Err(e) => Err(e),
    }
}

#[allow(non_snake_case)]
#[derive(Debug)]
pub struct ResponseDto {
    pub postId: String,
}

/// The answer to a creation: the new post's location and its identifier,
/// both in the identifier's textual form.
pub fn output_to_response(post_id: PostId) -> (r: (String, ResponseDto))
    ensures
        r.1.postId@ == id_text(post_id.0),
        r.0@ == "/post/"@ + id_text(post_id.0),
{
    let id = format_id(post_id.0);
    let mut location = String::from_str("/post/");
    location.append(id.as_str());
    (location, ResponseDto { postId: id })
}

} // verus!
