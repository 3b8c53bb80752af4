//! Deleting a post. A post is deleted at the request of its creator, or of an
//! administrator that the storage knows; guests and other users are refused.
//!
//! The workflow alternates storage round trips and decisions: each function
//! below takes what the last round trip answered and says what to do next.

use vstd::prelude::*;

use crate::common::error::{error_view, unauthenticated, unauthorized, ApiError, ApiErrorView, ErrorStatus};
use crate::common::{AdminId, Identity, PostId, UserId};
use crate::get_post::error::post_not_found;

pub mod api;

verus! {

/// What the workflow asks for next.
#[derive(Debug)]
pub enum Action {
    /// Ask the storage whether this administrator exists.
    CheckAdmin(AdminId),
    /// Ask the storage for the creator of the post.
    GetPostCreator(PostId),
    /// Delete the post, and report how many rows went.
    DeletePost(PostId),
    /// The request is answered.
    Finish(Result<(), ApiError>),
}

pub enum ActionView {
    CheckAdmin(AdminId),
    GetPostCreator(PostId),
    DeletePost(PostId),
    Finish(Result<(), ApiErrorView>),
}

impl View for Action {
    type V = ActionView;

    open spec fn view(&self) -> ActionView {
        match self {
            Action::CheckAdmin(a) => ActionView::CheckAdmin(*a),
            Action::GetPostCreator(p) => ActionView::GetPostCreator(*p),
            Action::DeletePost(p) => ActionView::DeletePost(*p),
            Action::Finish(Ok(())) => ActionView::Finish(Ok(())),
            Action::Finish(Err(e)) => ActionView::Finish(Err(e@)),
        }
    }
}

pub open spec fn refused_unauthenticated() -> ActionView {
    ActionView::Finish(Err(error_view(ErrorStatus::Unauthorized, "UNAUTHENTICATED"@)))
}

pub open spec fn refused_unauthorized() -> ActionView {
    ActionView::Finish(Err(error_view(ErrorStatus::Forbidden, "UNAUTHORIZED"@)))
}

pub open spec fn refused_not_found() -> ActionView {
    ActionView::Finish(Err(error_view(ErrorStatus::NotFound, "POST_NOT_FOUND"@)))
}

pub open spec fn spec_start(caller: Identity, post: PostId) -> ActionView {
    match caller {
        Identity::Guest => refused_unauthenticated(),
        Identity::Admin(admin) => ActionView::CheckAdmin(admin),
        Identity::User(_) => ActionView::GetPostCreator(post),
    }
}

/// The first step: guests are refused; an administrator is checked against
/// the storage; for a user, the post's creator is fetched.
pub fn start(caller: Identity, post: PostId) -> (r: Action)
    ensures
        r@ == spec_start(caller, post),
        caller matches Identity::Admin(admin) ==> r@ == ActionView::CheckAdmin(admin),
        caller is User ==> r@ == ActionView::GetPostCreator(post),
{
    match caller {
        Identity::Guest => Action::Finish(Err(unauthenticated())),
        Identity::Admin(admin) => Action::CheckAdmin(admin),
        Identity::User(_) => Action::GetPostCreator(post),
    }
}

pub open spec fn spec_on_admin_checked(admin_exists: i64, post: PostId) -> ActionView {
    if admin_exists != 0 {
        ActionView::DeletePost(post)
    } else {
        refused_unauthorized()
    }
}

/// After the storage answered whether the administrator exists (a count):
/// a known administrator deletes the post, an unknown one is refused.
pub fn on_admin_checked(admin_exists: i64, post: PostId) -> (r: Action)
    ensures
        r@ == spec_on_admin_checked(admin_exists, post),
{
    if admin_exists != 0 {
        Action::DeletePost(post)
    } else {
        Action::Finish(Err(unauthorized()))
    }
}

pub open spec fn spec_on_creator_fetched(user: UserId, creator: Option<u64>, post: PostId) -> ActionView {
    match creator {
        None => refused_not_found(),
        Some(creator) => if creator == user.0 {
            ActionView::DeletePost(post)
        } else {
            refused_unauthorized()
        },
    }
}

/// After the storage answered the post's creator (`None`: no such post): the
/// creator deletes the post, another user is refused.
pub fn on_creator_fetched(user: UserId, creator: Option<u64>, post: PostId) -> (r: Action)
    ensures
        r@ == spec_on_creator_fetched(user, creator, post),
{
    match creator {
        None => Action::Finish(Err(post_not_found())),
        Some(creator) => if creator == user.0 {
            Action::DeletePost(post)
        } else {
            Action::Finish(Err(unauthorized()))
        },
    }
}

pub open spec fn spec_on_deleted(rows_affected: u64) -> ActionView {
    if rows_affected != 0 {
        ActionView::Finish(Ok(()))
    } else {
        refused_not_found()
    }
}

/// After the deletion: no deleted row means there was no such post.
pub fn on_deleted(rows_affected: u64) -> (r: Action)
    ensures
        r@ == spec_on_deleted(rows_affected),
{
    if rows_affected != 0 {
        Action::Finish(Ok(()))
    } else {
        Action::Finish(Err(post_not_found()))
    }
}

/// The action that follows the storage's answers for a caller: the deletion
/// when one is due, else the answer given.
pub open spec fn spec_decision(
    caller: Identity,
    post: PostId,
    admin_exists: i64,
    creator: Option<u64>,
) -> ActionView {
    match spec_start(caller, post) {
        ActionView::CheckAdmin(_) => spec_on_admin_checked(admin_exists, post),
        ActionView::GetPostCreator(_) => match caller {
            Identity::User(user) => spec_on_creator_fetched(user, creator, post),
            _ => spec_start(caller, post),
        },
        other => other,
    }
}

/// What the request is answered, given the storage's answers: whether the
/// administrator exists, the post's creator, and how many rows the deletion
/// removed if the deletion happens.
pub open spec fn spec_outcome(
    caller: Identity,
    post: PostId,
    admin_exists: i64,
    creator: Option<u64>,
    rows_affected: u64,
) -> Result<(), ApiErrorView> {
    match spec_decision(caller, post, admin_exists, creator) {
        ActionView::DeletePost(_) => match spec_on_deleted(rows_affected) {
            ActionView::Finish(r) => r,
            _ => Err(error_view(ErrorStatus::InternalServerError, ""@)),
        },
        ActionView::Finish(r) => r,
        _ => Err(error_view(ErrorStatus::InternalServerError, ""@)),
    }
}

/// Whether the caller may delete the post, given the storage's answers.
pub open spec fn may_delete(caller: Identity, admin_exists: i64, creator: Option<u64>) -> bool {
    match caller {
        Identity::Guest => false,
        Identity::Admin(_) => admin_exists != 0,
        Identity::User(user) => creator == Some(user.0),
    }
}

/// Whatever the storage answers, the workflow reaches the deletion of a post
/// only for its creator or for an administrator the storage knows; a guest
/// is refused as unauthenticated, and any other user as unauthorized. The
/// request succeeds exactly when the deletion is reached and removes a row.
pub proof fn lemma_only_creator_or_admin_deletes(
    caller: Identity,
    post: PostId,
    admin_exists: i64,
    creator: Option<u64>,
    rows_affected: u64,
)
    ensures
        (spec_decision(caller, post, admin_exists, creator) matches ActionView::DeletePost(p)
            && p == post) <==> may_delete(caller, admin_exists, creator),
        spec_outcome(caller, post, admin_exists, creator, rows_affected) is Ok <==> may_delete(
            caller,
            admin_exists,
            creator,
        ) && rows_affected != 0,
        caller is Guest ==> spec_decision(caller, post, admin_exists, creator)
            == refused_unauthenticated(),
        caller is Guest ==> spec_outcome(caller, post, admin_exists, creator, rows_affected)
            is Err,
        (caller matches Identity::User(user) && creator matches Some(c) && c != user.0)
            ==> spec_decision(caller, post, admin_exists, creator) == refused_unauthorized(),
{
}

} // verus!

verus! {

/// Every action of the workflow is about the request itself: the post it
/// fetches or deletes is the requested post, and the administrator it checks
/// is the caller.
pub proof fn lemma_actions_concern_the_request(
    caller: Identity,
    post: PostId,
    admin_exists: i64,
    creator: Option<u64>,
)
    ensures
        spec_start(caller, post) matches ActionView::GetPostCreator(p) ==> p == post,
        spec_start(caller, post) matches ActionView::DeletePost(p) ==> p == post,
        spec_start(caller, post) matches ActionView::CheckAdmin(a) ==> caller == Identity::Admin(a),
        caller is User ==> spec_start(caller, post) is GetPostCreator,
        caller is Admin ==> spec_start(caller, post) is CheckAdmin,
        spec_on_admin_checked(admin_exists, post) matches ActionView::DeletePost(p) ==> p == post,
        caller matches Identity::User(user) ==> (spec_on_creator_fetched(user, creator, post) matches ActionView::DeletePost(p) ==> p == post),
        spec_decision(caller, post, admin_exists, creator) matches ActionView::DeletePost(p) ==> p == post,
{
}

} // verus!
