//! User sign-in: a user name and password give a fresh token.

use vstd::prelude::*;

use crate::admin_token::signs_in;
use crate::common::error::{error_view, ApiError, ErrorStatus};
use crate::common::{Password, UserId, UserName};

pub mod api;
pub mod error;

verus! {

#[derive(Debug)]
pub struct Query {
    pub user_name: UserName,
    pub password: Password,
}

pub open spec fn stored_hash(stored: Option<(u64, String)>) -> Option<Seq<char>> {
    match stored {
        Some((_, hash)) => Some(hash@),
        None => None,
    }
}

/// Signs a user in, given the stored identifier and password hash of the
/// user of that name (`None`: no such user). An unknown name and a wrong
/// password get the same answer.
pub fn workflow(input: Query, stored: Option<(u64, String)>) -> (r: Result<UserId, ApiError>)
    ensures
        r is Ok <==> signs_in(input.password@, stored_hash(stored)),
        r matches Ok(id) ==> stored matches Some((n, _)) && id == UserId(n),
        r matches Err(e) ==> e@ == error_view(
            ErrorStatus::Forbidden,
            "USER_NAME_OR_PASSWORD_INCORRECT"@,
        ),
{
    let (id, encrypted) = match stored {
        Some(row) => row,
        None => return Err(error::user_name_or_password_incorrect()),
    };
    if input.password.verify_encrypted(encrypted.as_str()) {
        Ok(UserId(id))
    } else {
        Err(error::user_name_or_password_incorrect())
    }
}

} // verus!

verus! {

/// A password whose stored hash was made from it (as registration makes it
/// with `Password::to_encrypted`, whose hash matches the password) signs in.
pub proof fn lemma_registered_password_signs_in(password: Seq<char>, hash: Seq<char>)
    requires
        crate::common::matches_hash(password, hash),
    ensures
        signs_in(password, Some(hash)),
{
}

} // verus!
