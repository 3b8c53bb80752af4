//! Registration: a new user with a name and a password, answered with a
//! fresh token.

use vstd::prelude::*;
use vstd::string::StringSliceAdditionalSpecFns;
use vstd::utf8::encode_utf8;

use crate::common::error::{error_view, ApiError, ApiErrorView, ErrorStatus};
use crate::common::utils::{duplicate_entry, ends_with, handle_internal, is_byte_suffix, is_duplicate_code};
use crate::common::utils::crypto::{bcrypt_hashed, bcrypt_prefix};
use crate::common::{matches_hash, Password, UserName};

pub mod api;
pub mod error;

verus! {

#[derive(Debug)]
pub struct Command {
    pub user_name: UserName,
    pub password: Password,
}

/// The stored hash of a new user's password: bcrypt with the given cost and
/// a random salt. `None` when bcrypt refuses the cost (outside 4..=31) or the
/// password (a NUL byte), or the system gives no randomness; a produced hash
/// is bcrypt's hash of the password with that cost and some 16-byte salt, and
/// matches the password.
pub fn encrypted_password(command: &Command, cost: u32) -> (r: Option<String>)
    ensures
        !(4 <= cost <= 31) ==> r is None,
        encode_utf8(command.password@).contains(0u8) ==> r is None,
        r matches Some(h) ==> exists|salt: Seq<u8>|
            salt.len() == 16 && #[trigger] bcrypt_hashed(encode_utf8(command.password@), cost, salt)
                == Some(h@),
        r matches Some(h) ==> matches_hash(command.password@, h@) && h@.subrange(0, 7)
            == bcrypt_prefix(cost),
{
    command.password.to_encrypted(cost)
}

pub open spec fn spec_insert_error(code: Option<&str>, message: Seq<u8>) -> ApiErrorView {
    if is_duplicate_code(code) && is_byte_suffix(message, encode_utf8("for key 'users.username'"@)) {
        error_view(ErrorStatus::Conflict, "USER_NAME_ALREADY_EXISTS"@)
    } else {
        error_view(ErrorStatus::InternalServerError, ""@)
    }
}

/// The answer when storing the new user failed with the given error code and
/// message: a duplicate of the unique user name is a conflict, anything else
/// an internal error.
pub fn insert_error(code: Option<&str>, message: &str) -> (r: ApiError)
    ensures
        r@ == spec_insert_error(code, message.spec_bytes()),
{
    if duplicate_entry(code) && ends_with(message, "for key 'users.username'") {
        error::user_name_already_exists()
    } else {
        handle_internal()
    }
}

} // verus!
