//! The answer form of the identity endpoint.

use vstd::prelude::*;

use crate::common::utils::{format_id, id_text};
use super::IdentityInfo;

verus! {

#[derive(Debug)]
pub struct UserDto {
    pub name: String,
    pub id: String,
}

#[derive(Debug)]
pub struct AdminDto {
    pub id: String,
}

/// At most one of `user` and `admin` is present; a guest gets neither.
#[derive(Debug)]
pub struct ResponseDto {
    pub user: Option<UserDto>,
    pub admin: Option<AdminDto>,
}

pub fn output_to_response(output: IdentityInfo) -> (r: ResponseDto)
    ensures
        match output {
            IdentityInfo::User { id, name } => r.admin is None && (r.user matches Some(u) && u.name@
                == name@ && u.id@ == id_text(id.0)),
            IdentityInfo::Admin { id } => r.user is None && (r.admin matches Some(a) && a.id@
                == id_text(id.0)),
            IdentityInfo::Guest => r.user is None && r.admin is None,
        },
{
    match output {
        IdentityInfo::User { id, name } => ResponseDto {
            user: Some(UserDto { name: name.into_string(), id: format_id(id.0) }),
            admin: None,
        },
        IdentityInfo::Admin { id } => ResponseDto {
            user: None,
            admin: Some(AdminDto { id: format_id(id.0) }),
        },
        IdentityInfo::Guest => ResponseDto { user: None, admin: None },
    }
}

} // verus!
