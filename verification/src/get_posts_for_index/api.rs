//! The request and answer forms of the posts index.

use vstd::prelude::*;

use crate::common::error::{api_error, error_view, result_view, ApiError, ApiErrorView, ErrorStatus};
use crate::common::utils::{format_id, id_text};
use crate::common::Time;
use super::{Condition, Output, PostInfoForPage, Query};

verus! {

/// The query string: `before` or `after` a time (not both), and a page size.
#[derive(Debug)]
pub struct RequestDto {
    pub before: Option<u64>,
    pub after: Option<u64>,
    pub size: Option<u32>,
}

pub open spec fn spec_condition(before: Option<u64>, after: Option<u64>) -> Result<
    Condition,
    ApiErrorView,
> {
    match (before, after) {
        (None, None) => Ok(Condition::No),
        (Some(utc), None) => Ok(Condition::Before(Time { utc })),
        (None, Some(utc)) => Ok(Condition::After(Time { utc })),
        (Some(_), Some(_)) => Err(error_view(ErrorStatus::BadRequest, "BOTH_BEFORE_AFTER"@)),
    }
}

/// The condition a request asks for; asking for both a lower and an upper
/// bound is refused.
pub fn condition_from(before: Option<u64>, after: Option<u64>) -> (r: Result<Condition, ApiError>)
    ensures
        result_view(r) == spec_condition(before, after),
{
    match (before, after) {
        (None, None) => Ok(Condition::No),
        (Some(utc), None) => Ok(Condition::Before(Time { utc })),
        (None, Some(utc)) => Ok(Condition::After(Time { utc })),
        (Some(_), Some(_)) => Err(api_error(ErrorStatus::BadRequest, "BOTH_BEFORE_AFTER")),
    }
}

/// The page size when a request names none.
pub const DEFAULT_PAGE_SIZE: u32 = 20;

pub open spec fn page_size(size: Option<u32>) -> u32 {
    match size {
        Some(n) => n,
        None => DEFAULT_PAGE_SIZE,
    }
}

/// The page a request asks for: its condition, and the named size or the
/// default one.
pub fn to_input(request: RequestDto) -> (r: Result<Query, ApiError>)
    ensures
        match spec_condition(request.before, request.after) {
            Ok(condition) => r matches Ok(q) && q.condition == condition && q.size == page_size(
                request.size,
            ),
            Err(e) => r matches Err(err) && err@ == e,
        },
{
    let condition = match condition_from(request.before, request.after) {
        Ok(condition) => condition,
        Err(e) => return Err(e),
    };
    let size = match request.size {
        Some(n) => n,
        None => DEFAULT_PAGE_SIZE,
    };
    Ok(Query { condition, size })
}

} // verus!

verus! {

/// One post of the page, as answered.
#[allow(non_snake_case)]
#[derive(Debug)]
pub struct PostInfoForPageDto {
    pub id: String,
    pub title: String,
    pub creatorName: String,
    pub creatorId: String,
    pub creationTime: u64,
}

/// The answered page.
#[derive(Debug)]
pub struct ResponseDto {
    pub exhausted: bool,
    pub info: Vec<PostInfoForPageDto>,
}

/// The answered form of a post: identifiers in their textual form.
pub open spec fn dto_matches(post: PostInfoForPage, dto: PostInfoForPageDto) -> bool {
    &&& dto.id@ == id_text(post.id.0)
    &&& dto.title@ == post.title@
    &&& dto.creatorName@ == post.creator.name@
    &&& dto.creatorId@ == id_text(post.creator.id.0)
    &&& dto.creationTime == post.creation_date.utc
}

/// The answer for a page, posts in the same order.
pub fn output_to_response(output: Output) -> (r: ResponseDto)
    ensures
        r.exhausted == output.exhausted,
        r.info@.len() == output.posts@.len(),
        forall|i: int|
            0 <= i < output.posts@.len() ==> dto_matches(output.posts@[i], #[trigger] r.info@[i]),
{
    let mut info: Vec<PostInfoForPageDto> = Vec::new();
    for i in 0..output.posts.len()
        invariant
            info@.len() == i,
            forall|j: int| 0 <= j < i ==> dto_matches(output.posts@[j], #[trigger] info@[j]),
    {
        let post = &output.posts[i];
        info.push(
            PostInfoForPageDto {
                id: format_id(post.id.0),
                title: String::from_str(post.title.as_str()),
                creatorName: String::from_str(post.creator.name.as_str()),
                creatorId: format_id(post.creator.id.0),
                creationTime: post.creation_date.utc,
            },
        );
    }
    ResponseDto { exhausted: output.exhausted, info }
}

} // verus!
