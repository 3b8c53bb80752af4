//! Editing a post: its creator replaces the content with one of the same kind.

use vstd::prelude::*;

use crate::common::error::{error_view, ApiError, ApiErrorView, ErrorStatus};
use crate::common::utils::db::stored_form;
use crate::common::{PostContent, PostContentView, PostId, UserId};
use crate::get_post::error::post_not_found;

pub mod api;
pub mod error;

verus! {

#[derive(Debug)]
pub struct Command {
    pub id: PostId,
    pub new_content: PostContent,
}

/// The stored type tag of a content of this kind.
pub open spec fn type_tag(content: PostContentView) -> Seq<char> {
    match content {
        PostContentView::Post(_) => "post"@,
        PostContentView::Url(_) => "url"@,
    }
}

pub open spec fn spec_check(stored: Option<(u64, Seq<char>)>, user: UserId, content: PostContentView) -> Result<
    (),
    ApiErrorView,
> {
    match stored {
        None => Err(error_view(ErrorStatus::NotFound, "POST_NOT_FOUND"@)),
        Some((creator, post_type)) => if creator != user.0 {
            Err(error_view(ErrorStatus::Forbidden, "NOT_CREATOR"@))
        } else if post_type != type_tag(content) {
            Err(error_view(ErrorStatus::BadRequest, "CONTENT_TYPE_DIFF"@))
        } else {
            Ok(())
        },
    }
}

pub open spec fn stored_view(stored: Option<(u64, String)>) -> Option<(u64, Seq<char>)> {
    match stored {
        Some((creator, post_type)) => Some((creator, post_type@)),
        None => None,
    }
}

pub open spec fn unit_result_view(r: Result<(), ApiError>) -> Result<(), ApiErrorView> {
    match r {
        Ok(()) => Ok(()),
        Err(e) => Err(e@),
    }
}

/// Checks an edit against the post's stored creator and content type
/// (`None`: no such post): only the creator may edit, and only with a
/// content of the same kind.
pub fn checks_user_is_creator_and_content_has_the_same_post_type(
    stored: Option<(u64, String)>,
    user: UserId,
    content: &PostContent,
) -> (r: Result<(), ApiError>)
    ensures
        unit_result_view(r) == spec_check(stored_view(stored), user, content@),
        r is Ok <==> (stored matches Some((creator, post_type)) && creator == user.0
            && post_type@ == stored_form(content@).0),
{
    let (creator, post_type) = match stored {
        Some(row) => row,
        None => return Err(post_not_found()),
    };
    if creator != user.0 {
        return Err(error::not_creator());
    }
    let content_type_matched = match content {
        PostContent::Post(_) => post_type == String::from_str("post"),
        PostContent::Url(_) => post_type == String::from_str("url"),
    };
    if !content_type_matched {
        return Err(error::content_type_diff());
    }
    Ok(())
}

/// The answer after the update: no updated row means there was no such post.
pub fn update_post_result(rows_affected: u64) -> (r: Result<(), ApiError>)
    ensures
        rows_affected == 0 ==> (r matches Err(e) && e@ == error_view(
            ErrorStatus::NotFound,
            "POST_NOT_FOUND"@,
        )),
        rows_affected != 0 ==> r is Ok,
{
    if rows_affected == 0 {
        Err(post_not_found())
    } else {
        Ok(())
    }
}

} // verus!

verus! {

/// An edit by the post's creator is accepted exactly when the stored type
/// tag is the one under which the new content would be stored: a link edits
/// only a link post ("url"), a text only a text post ("post"). Anyone else's
/// edit is refused as not the creator's, and an edit of a missing post as
/// not found.
pub proof fn lemma_edit_keeps_the_kind(
    creator: u64,
    post_type: Seq<char>,
    user: UserId,
    content: PostContentView,
)
    ensures
        creator == user.0 ==> (spec_check(Some((creator, post_type)), user, content) is Ok
            <==> post_type == stored_form(content).0),
        creator == user.0 && content is Url ==> (spec_check(Some((creator, post_type)), user, content)
            is Ok <==> post_type == "url"@),
        creator == user.0 && content is Post ==> (spec_check(Some((creator, post_type)), user, content)
            is Ok <==> post_type == "post"@),
        creator != user.0 ==> spec_check(Some((creator, post_type)), user, content) == Err::<
            (),
            ApiErrorView,
        >(error_view(ErrorStatus::Forbidden, "NOT_CREATOR"@)),
        spec_check(None, user, content) == Err::<(), ApiErrorView>(
            error_view(ErrorStatus::NotFound, "POST_NOT_FOUND"@),
        ),
{
}

} // verus!
