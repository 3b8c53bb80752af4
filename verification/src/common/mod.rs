//! Model types shared by all endpoints.

use vstd::prelude::*;

use crate::common::error::{invalid_url, password_empty, title_empty, user_name_empty};
use crate::common::utils::crypto::{
    bcrypt_hash_with_salt, bcrypt_hashed, bcrypt_prefix, bcrypt_verified, bcrypt_verify, fill_random,
    text_option_view,
};
use crate::common::utils::Invalid;
use vstd::utf8::{encode_utf8, is_ascii_chars};

pub mod error;
pub mod utils;

verus! {

#[derive(Clone, Copy, Debug, PartialEq, Eq, Structural)]
pub struct UserId(pub u64);

#[derive(Clone, Copy, Debug, PartialEq, Eq, Structural)]
pub struct AdminId(pub u64);

#[derive(Clone, Copy, Debug, PartialEq, Eq, Structural)]
pub struct PostId(pub u64);

/// Who made a request.
#[derive(Clone, Copy, Debug, PartialEq, Eq, Structural)]
pub enum Identity {
    User(UserId),
    Admin(AdminId),
    Guest,
}

/// A point in time, in milliseconds since the UNIX epoch.
#[derive(Clone, Copy, Debug, PartialEq, Eq, Structural)]
pub struct Time {
    pub utc: u64,
}

/// What `url::Url::parse(input)` returns: the serialization (`to_string`) of
/// the parsed URL, or the text (`Display`) of the parse error.
pub uninterp spec fn url_parsed(input: Seq<char>) -> Result<Seq<char>, Seq<char>>;

/// A text result taken by its view.
pub open spec fn text_result_view(r: Result<String, String>) -> Result<Seq<char>, Seq<char>> {
    match r {
        Ok(s) => Ok(s@),
        Err(e) => Err(e@),
    }
}

/// Calls `url::Url::parse`, the parsed URL turned into its serialization and
/// the error into its text. Trusted: the result is the named parse of `input`.
#[verifier::external_body]
fn parse_url_text(input: &str) -> (r: Result<String, String>)
    ensures
        url_parsed(input@) == text_result_view(r),
{
    match url::Url::parse(input) {
        Ok(url) => Ok(url.to_string()),
        Err(e) => Err(e.to_string()),
    }
}

/// A parsed URL, held by its serialization.
#[derive(Debug)]
pub struct Url {
    serialization: String,
}

impl View for Url {
    type V = Seq<char>;

    closed spec fn view(&self) -> Seq<char> {
        self.serialization@
    }
}

impl Url {
    /// The serialization of the URL.
    pub fn as_str(&self) -> (r: &str)
        ensures
            r@ == self@,
    {
        self.serialization.as_str()
    }

    /// The serialization of the URL, as an owned string.
    pub fn to_string(&self) -> (r: String)
        ensures
            r@ == self@,
    {
        self.serialization.clone()
    }
}

/// The content of a post: either a text or a link.
#[derive(Debug)]
pub enum PostContent {
    Post(String),
    Url(Url),
}

pub enum PostContentView {
    Post(Seq<char>),
    Url(Seq<char>),
}

impl View for PostContent {
    type V = PostContentView;

    open spec fn view(&self) -> PostContentView {
        match self {
            PostContent::Post(s) => PostContentView::Post(s@),
            PostContent::Url(u) => PostContentView::Url(u@),
        }
    }
}

/// What `PostContent::parse_url` gives for `value`: the link, or the
/// validation failure carrying `value` and the reason.
pub open spec fn parse_url_outcome(
    value: Seq<char>,
    r: Result<PostContent, Invalid<String>>,
) -> bool {
    match url_parsed(value) {
        Ok(serialization) => r matches Ok(c) && c@ == PostContentView::Url(serialization),
        Err(reason) => r matches Err(e) && e.value@ == value && e.body@ == "URL_INVALID: "@
            + reason,
    }
}

impl PostContent {
    /// Parses a link; a text that is no URL fails validation with the
    /// parser's reason.
    pub fn parse_url(value: String) -> (r: Result<PostContent, Invalid<String>>)
        ensures
            parse_url_outcome(value@, r),
    {
        match parse_url_text(value.as_str()) {
            Ok(serialization) => Ok(PostContent::Url(Url { serialization })),
            Err(reason) => Err(invalid_url(value, reason.as_str())),
        }
    }
}

/// A user name is valid when it is not empty.
pub open spec fn valid_user_name(name: Seq<char>) -> bool {
    name.len() > 0
}

/// A title is valid when it is not empty.
pub open spec fn valid_title(title: Seq<char>) -> bool {
    title.len() > 0
}

/// A password is valid when it is not empty.
pub open spec fn valid_password(password: Seq<char>) -> bool {
    password.len() > 0
}

/// A validated user name.
#[derive(Debug)]
pub struct UserName {
    name: String,
}

impl View for UserName {
    type V = Seq<char>;

    closed spec fn view(&self) -> Seq<char> {
        self.name@
    }
}

impl UserName {
    /// Validates a user name; an empty one is refused.
    pub fn try_new(name: String) -> (r: Result<UserName, Invalid<String>>)
        ensures
            valid_user_name(name@) ==> (r matches Ok(n) && n@ == name@),
            !valid_user_name(name@) ==> (r matches Err(e) && e.value@ == name@ && e.body@
                == "USER_NAME_EMPTY"@),
    {
        if name.as_str().is_empty() {
            Err(user_name_empty(name))
        } else {
            Ok(UserName { name })
        }
    }

    pub fn as_str(&self) -> (r: &str)
        ensures
            r@ == self@,
    {
        self.name.as_str()
    }

    pub fn into_string(self) -> (r: String)
        ensures
            r@ == self@,
    {
        self.name
    }
}

impl Clone for UserName {
    fn clone(&self) -> (r: UserName)
        ensures
            r@ == self@,
    {
        UserName { name: self.name.clone() }
    }
}

/// A validated post title.
#[derive(Debug)]
pub struct Title {
    title: String,
}

impl View for Title {
    type V = Seq<char>;

    closed spec fn view(&self) -> Seq<char> {
        self.title@
    }
}

impl Title {
    /// Validates a title; an empty one is refused.
    pub fn try_new(title: String) -> (r: Result<Title, Invalid<String>>)
        ensures
            valid_title(title@) ==> (r matches Ok(t) && t@ == title@),
            !valid_title(title@) ==> (r matches Err(e) && e.value@ == title@ && e.body@
                == "TITLE_EMPTY"@),
    {
        if title.as_str().is_empty() {
            Err(title_empty(title))
        } else {
            Ok(Title { title })
        }
    }

    pub fn as_str(&self) -> (r: &str)
        ensures
            r@ == self@,
    {
        self.title.as_str()
    }

    pub fn into_string(self) -> (r: String)
        ensures
            r@ == self@,
    {
        self.title
    }
}

/// Whether `password` matches a stored bcrypt hash: the hash must be ASCII,
/// as every bcrypt hash is.
pub open spec fn matches_hash(password: Seq<char>, hash: Seq<char>) -> bool {
    is_ascii_chars(hash) && bcrypt_verified(encode_utf8(password), hash) == Some(true)
}

/// A validated password, in plain text.
#[derive(Debug)]
pub struct Password {
    plain: String,
}

impl View for Password {
    type V = Seq<char>;

    closed spec fn view(&self) -> Seq<char> {
        self.plain@
    }
}

impl Password {
    /// Validates a password; an empty one is refused.
    pub fn from_plain(plain: String) -> (r: Result<Password, Invalid<String>>)
        ensures
            valid_password(plain@) ==> (r matches Ok(p) && p@ == plain@),
            !valid_password(plain@) ==> (r matches Err(e) && e.value@ == plain@ && e.body@
                == "PASSWORD_EMPTY"@),
    {
        if plain.as_str().is_empty() {
            Err(password_empty(plain))
        } else {
            Ok(Password { plain })
        }
    }

    /// Whether the password matches a stored bcrypt hash; a stored text that
    /// is no bcrypt hash (in particular one that is not ASCII) matches nothing.
    pub fn verify_encrypted(&self, encrypted: &str) -> (r: bool)
        ensures
            r == matches_hash(self@, encrypted@),
    {
        if !encrypted.is_ascii() {
            return false;
        }
        match bcrypt_verify(self.plain.as_str().as_bytes(), encrypted) {
            Some(matched) => matched,
            None => false,
        }
    }

    /// The bcrypt hash (version 2b) of the password with the given cost and
    /// 16-byte salt; `None` exactly when bcrypt refuses the cost (outside
    /// 4..=31) or the password (it holds a NUL byte).
    pub fn to_encrypted_with_salt(&self, cost: u32, salt: &[u8]) -> (r: Option<String>)
        requires
            salt@.len() == 16,
        ensures
            text_option_view(r) == bcrypt_hashed(encode_utf8(self@), cost, salt@),
            (4 <= cost <= 31 && !encode_utf8(self@).contains(0u8)) <==> r is Some,
            r matches Some(h) ==> matches_hash(self@, h@) && h@.subrange(0, 7) == bcrypt_prefix(
                cost,
            ),
    {
        bcrypt_hash_with_salt(self.plain.as_str().as_bytes(), cost, salt)
    }

    /// A bcrypt hash of the password with the given cost and a random 16-byte
    /// salt from the system; the hash matches the password and carries the
    /// cost. `None` when bcrypt refuses the cost (outside 4..=31) or the
    /// password (it holds a NUL byte), or the system gives no randomness.
    pub fn to_encrypted(&self, cost: u32) -> (r: Option<String>)
        ensures
            !(4 <= cost <= 31) ==> r is None,
            encode_utf8(self@).contains(0u8) ==> r is None,
            r matches Some(h) ==> exists|salt: Seq<u8>|
                salt.len() == 16 && #[trigger] bcrypt_hashed(encode_utf8(self@), cost, salt) == Some(
                    h@,
                ),
            r matches Some(h) ==> matches_hash(self@, h@) && h@.subrange(0, 7) == bcrypt_prefix(
                cost,
            ),
    {
        let mut salt: Vec<u8> = vec![0u8; 16];
        if !fill_random(&mut salt) {
            return None;
        }
        let r = self.to_encrypted_with_salt(cost, salt.as_slice());
        proof {
            if r is Some {
                assert(bcrypt_hashed(encode_utf8(self@), cost, salt@) == Some(r->Some_0@));
            }
        }
        r
    }
}

} // verus!
