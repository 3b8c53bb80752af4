//! Administrator sign-in: an administrator's identifier and password give a
//! fresh token.

use vstd::prelude::*;

use crate::common::error::{error_view, ApiError, ErrorStatus};
use crate::common::{matches_hash, AdminId, Password};

pub mod api;
pub mod error;

verus! {

#[derive(Debug)]
pub struct Query {
    pub id: AdminId,
    pub password: Password,
}

/// Whether `password` signs in against the stored hash (`None`: no such
/// administrator).
pub open spec fn signs_in(password: Seq<char>, stored: Option<Seq<char>>) -> bool {
    match stored {
        Some(hash) => matches_hash(password, hash),
        None => false,
    }
}

pub open spec fn text_option(s: Option<String>) -> Option<Seq<char>> {
    match s {
        Some(s) => Some(s@),
        None => None,
    }
}

/// Signs an administrator in, given the stored hash of its password. An
/// unknown identifier and a wrong password get the same answer.
pub fn workflow(input: Query, stored: Option<String>) -> (r: Result<AdminId, ApiError>)
    ensures
        r is Ok <==> signs_in(input.password@, text_option(stored)),
        r matches Ok(id) ==> id == input.id,
        r matches Err(e) ==> e@ == error_view(ErrorStatus::Forbidden, "ID_OR_PASSWORD_INCORRECT"@),
{
    let encrypted = match stored {
        Some(encrypted) => encrypted,
        None => return Err(error::id_or_password_incorrect()),
    };
    if input.password.verify_encrypted(encrypted.as_str()) {
        Ok(input.id)
    } else {
        Err(error::id_or_password_incorrect())
    }
}

} // verus!
