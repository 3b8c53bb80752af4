//! Who the caller is: a user (with the stored name), an administrator, or a guest.

use vstd::prelude::*;

use crate::common::error::{error_view, ApiError, ErrorStatus};
use crate::common::utils::handle_internal;
use crate::common::{valid_user_name, AdminId, Identity, UserId, UserName};

pub mod api;

verus! {

#[allow(inconsistent_fields)]
#[derive(Debug)]
pub enum IdentityInfo {
    User { id: UserId, name: UserName },
    Admin { id: AdminId },
    Guest,
}

/// The user whose name the storage must give, if the caller is one.
pub fn needs_user_name(caller: Identity) -> (r: Option<UserId>)
    ensures
        r == match caller {
            Identity::User(id) => Some(id),
            _ => None::<UserId>,
        },
{
    match caller {
        Identity::User(id) => Some(id),
        _ => None,
    }
}

/// The identity of the caller, given the stored name of a calling user
/// (`None`: the storage holds no name for the user). A missing or invalid
/// stored name is an internal error.
pub fn workflow(caller: Identity, user_name: Option<String>) -> (r: Result<IdentityInfo, ApiError>)
    ensures
        match caller {
            Identity::User(id) => match user_name {
                Some(name) => if valid_user_name(name@) {
                    r matches Ok(IdentityInfo::User { id: i, name: n }) && i == id && n@ == name@
                } else {
                    r matches Err(e) && e@ == error_view(ErrorStatus::InternalServerError, ""@)
                },
                None => r matches Err(e) && e@ == error_view(
                    ErrorStatus::InternalServerError,
                    ""@,
                ),
            },
            Identity::Admin(id) => r matches Ok(IdentityInfo::Admin { id: i }) && i == id,
            Identity::Guest => r matches Ok(IdentityInfo::Guest),
        },
{
    match caller {
        Identity::User(id) => match user_name {
            Some(name) => match UserName::try_new(name) {
                Ok(name) => Ok(IdentityInfo::User { id, name }),
                Err(invalid) => Err(invalid.persisted_invalid()),
            },
            None => Err(handle_internal()),
        },
        Identity::Admin(id) => Ok(IdentityInfo::Admin { id }),
        Identity::Guest => Ok(IdentityInfo::Guest),
    }
}

} // verus!
