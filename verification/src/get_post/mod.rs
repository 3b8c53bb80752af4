//! The page of one post: the post's row, then its creator's name.

use vstd::prelude::*;

use crate::common::error::{error_view, ApiError, ErrorStatus};
use crate::common::utils::db::spec_model;
use crate::common::utils::{handle_internal, Invalid};
use crate::common::{
    valid_title, valid_user_name, PostContent, PostId, Time, Title, UserId, UserName,
};

pub mod api;
pub mod error;

verus! {

/// The post a page shows.
pub type Query = PostId;

#[derive(Debug)]
pub struct CreatorInfo {
    pub name: UserName,
    pub id: UserId,
}

#[derive(Debug)]
pub struct PostInfoForPage {
    pub creator: CreatorInfo,
    pub creation: Time,
    pub last_modified: Option<Time>,
    pub title: Title,
    pub content: PostContent,
}

/// A post as the storage holds it: creator, creation time, last
/// modification time, title, content type and content.
pub type PostRow = (u64, u64, Option<u64>, String, String, String);

pub open spec fn time_option(t: Option<u64>) -> Option<Time> {
    match t {
        Some(utc) => Some(Time { utc }),
        None => None,
    }
}

/// The post's row, as the storage answered it (`None`: no such post).
pub fn on_post_fetched(row: Option<PostRow>) -> (r: Result<PostRow, ApiError>)
    ensures
        row is None ==> (r matches Err(e) && e@ == error_view(
            ErrorStatus::NotFound,
            "POST_NOT_FOUND"@,
        )),
        row matches Some(found) ==> r == Ok::<PostRow, ApiError>(found),
{
    match row {
        Some(found) => Ok(found),
        None => Err(error::post_not_found()),
    }
}

/// The page of a stored post and its creator's name (`None`: the creator is
/// missing from the storage). A missing creator, an invalid stored name or
/// title, or stored content that does not read back, is an internal error.
pub fn build_post_info(row: PostRow, creator_name: Option<String>) -> (r: Result<
    PostInfoForPage,
    ApiError,
>)
    ensures
        r is Ok <==> (creator_name matches Some(name) && valid_user_name(name@) && valid_title(
            row.3@,
        ) && spec_model(row.4@, row.5@) is Some),
        r matches Err(e) ==> e@ == error_view(ErrorStatus::InternalServerError, ""@),
        r matches Ok(info) ==> {
            &&& info.creator.id == UserId(row.0)
            &&& creator_name matches Some(name) && info.creator.name@ == name@
            &&& info.creation == Time { utc: row.1 }
            &&& info.last_modified == time_option(row.2)
            &&& (info.last_modified is None <==> row.2 is None)
            &&& (row.2 matches Some(utc) ==> info.last_modified == Some(Time { utc }))
            &&& info.title@ == row.3@
            &&& spec_model(row.4@, row.5@) == Some(info.content@)
        },
{
    let (creator, creation_time_utc, last_modified_utc, title, post_type, content) = row;
    let name = match creator_name {
        Some(name) => name,
        None => return Err(handle_internal()),
    };
    let name = match UserName::try_new(name) {
        Ok(name) => name,
        Err(invalid) => return Err(invalid.persisted_invalid()),
    };
    let title = match Title::try_new(title) {
        Ok(title) => title,
        Err(invalid) => return Err(invalid.persisted_invalid()),
    };
    let stored = crate::common::utils::db::PostContent { post_type, content };
    let content = match stored.try_into_model() {
        Ok(content) => content,
        Err(invalid) => return Err(Invalid::persisted_invalid(invalid)),
    };
    let last_modified = match last_modified_utc {
        Some(utc) => Some(Time { utc }),
        None => None,
    };
    Ok(
        PostInfoForPage {
            creator: CreatorInfo { name, id: UserId(creator) },
            creation: Time { utc: creation_time_utc },
            last_modified,
            title,
            content,
        },
    )
}

} // verus!

verus! {

/// The page's last modification is the stored one: absent exactly when none
/// is stored, and else the stored time.
pub proof fn lemma_last_modified_is_stored(stored: Option<u64>)
    ensures
        time_option(stored) is None <==> stored is None,
        stored matches Some(utc) ==> time_option(stored) == Some(Time { utc }),
        time_option(stored) matches Some(t) ==> stored == Some(t.utc),
{
}

} // verus!
