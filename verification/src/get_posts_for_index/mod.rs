//! The index of posts: a page of posts around a point in time, newest first.

use std::collections::HashMap;
use vstd::prelude::*;
use vstd::utf8::{encode_utf8, is_ascii_chars, is_ascii_chars_encode_utf8};

use crate::common::error::{error_view, ApiError, ErrorStatus};
use crate::common::utils::handle_internal;
use crate::common::{valid_title, valid_user_name, PostId, Time, Title, UserId, UserName};

pub mod api;

verus! {

/// Which posts a page holds, by creation time.
#[derive(Clone, Copy, Debug, PartialEq, Eq, Structural)]
pub enum Condition {
    No,
    Before(Time),
    After(Time),
}

/// A request for a page: the condition and the most posts to return.
#[derive(Clone, Copy, Debug, PartialEq, Eq, Structural)]
pub struct Query {
    pub condition: Condition,
    pub size: u32,
}

#[derive(Debug)]
pub struct CreatorInfo {
    pub name: UserName,
    pub id: UserId,
}

#[derive(Debug)]
pub struct PostInfoForPage {
    pub id: PostId,
    pub title: Title,
    pub creator: CreatorInfo,
    pub creation_date: Time,
}

/// A page of posts; `exhausted` tells that fewer posts than asked for were left.
#[derive(Debug)]
pub struct Output {
    pub exhausted: bool,
    pub posts: Vec<PostInfoForPage>,
}

/// A post as the storage lists it: identifier, creator, creation time, title.
pub type PostRow = (u64, u64, u64, String);

/// The decimal digits of `n`, as ASCII bytes.
pub open spec fn decimal_bytes(n: nat) -> Seq<u8>
    decreases n,
{
    if n < 10 {
        seq![(48 + n) as u8]
    } else {
        decimal_bytes(n / 10).push((48 + n % 10) as u8)
    }
}

/// Whether `b` is an ASCII decimal digit.
pub open spec fn is_decimal_digit(b: u8) -> bool {
    48 <= b <= 57
}

/// The number that `s` denotes when read as base-10 digits, most significant first.
pub open spec fn digits_value(s: Seq<u8>) -> int
    decreases s.len(),
{
    if s.len() == 0 {
        0
    } else {
        digits_value(s.drop_last()) * 10 + (s.last() - 48)
    }
}

/// The digits written for a number are decimal digits, without a leading zero
/// (but for zero itself), and read back in base 10 as that number.
pub proof fn lemma_decimal_reads_back(n: nat)
    ensures
        decimal_bytes(n).len() >= 1,
        forall|i: int| 0 <= i < decimal_bytes(n).len() ==> is_decimal_digit(#[trigger] decimal_bytes(n)[i]),
        decimal_bytes(n)[0] == 48 ==> n == 0,
        digits_value(decimal_bytes(n)) == n,
    decreases n,
{
    if n >= 10 {
        lemma_decimal_reads_back(n / 10);
        assert(decimal_bytes(n).drop_last() =~= decimal_bytes(n / 10));
        assert(n == (n / 10) * 10 + n % 10);
        assert(decimal_bytes(n).last() == 48 + n % 10);
        assert(digits_value(decimal_bytes(n)) == digits_value(decimal_bytes(n / 10)) * 10 + (
        decimal_bytes(n).last() - 48));
    } else {
        let s = decimal_bytes(n);
        assert(s.drop_last() =~= Seq::<u8>::empty());
        assert(digits_value(s.drop_last()) == 0);
        assert(s.last() == 48 + n);
        assert(digits_value(s) == digits_value(s.drop_last()) * 10 + (s.last() - 48));
    }
}

/// Appends the decimal digits of `n` to `buf`.
fn push_decimal(buf: &mut Vec<u8>, n: u64)
    ensures
        final(buf)@ == old(buf)@ + decimal_bytes(n as nat),
    decreases n,
{
    if n >= 10 {
        push_decimal(buf, n / 10);
    }
    buf.push(48u8 + (n % 10) as u8);
}

pub open spec fn users_query_prefix() -> Seq<u8> {
    encode_utf8("SELECT id,username FROM users WHERE id IN ("@)
}

/// Each creator's identifier in decimal, followed by a comma.
pub open spec fn creator_list(rows: Seq<PostRow>) -> Seq<u8>
    decreases rows.len(),
{
    if rows.len() == 0 {
        seq![]
    } else {
        creator_list(rows.drop_last()) + decimal_bytes(rows.last().1 as nat) + seq![44u8]
    }
}

/// The query that fetches the names of the posts' creators: the prefix, the
/// creators' identifiers each followed by a comma, and the last byte (the
/// trailing comma, or the prefix's opening parenthesis when there is no
/// post) replaced by a closing parenthesis.
pub open spec fn spec_users_query(rows: Seq<PostRow>) -> Seq<u8> {
    let text = users_query_prefix() + creator_list(rows);
    text.update(text.len() - 1, 41u8)
}

/// Builds the query for the names of the creators of `rows`.
pub fn users_query(rows: &Vec<PostRow>) -> (r: Vec<u8>)
    ensures
        r@ == spec_users_query(rows@),
{
    let prefix = "SELECT id,username FROM users WHERE id IN (";
    proof {
        reveal_strlit("SELECT id,username FROM users WHERE id IN (");
        assert(is_ascii_chars(prefix@));
        is_ascii_chars_encode_utf8(prefix@);
    }
    let mut query: Vec<u8> = Vec::new();
    query.extend_from_slice(prefix.as_bytes());
    for i in 0..rows.len()
        invariant
            query@ == users_query_prefix() + creator_list(rows@.take(i as int)),
    {
        assert(rows@.take(i + 1).drop_last() =~= rows@.take(i as int));
        push_decimal(&mut query, rows[i].1);
        query.push(44u8);
        assert(query@ =~= users_query_prefix() + creator_list(rows@.take(i + 1)));
    }
    assert(rows@.take(rows.len() as int) =~= rows@);
    let last = query.len() - 1;
    query.set(last, 41u8);
    query
}

/// A listed post whose creator has a name.
pub open spec fn post_matches(row: PostRow, name: Seq<char>, post: PostInfoForPage) -> bool {
    &&& post.id == PostId(row.0)
    &&& post.title@ == row.3@
    &&& post.creator.id == UserId(row.1)
    &&& post.creator.name@ == name
    &&& post.creation_date == Time { utc: row.2 }
}

/// A user as the storage lists it: identifier and name.
pub type UserRow = (u64, String);

/// The names of `users` by identifier; a later row for the same identifier
/// replaces an earlier one.
pub open spec fn names_map(users: Seq<UserRow>) -> Map<u64, Seq<char>>
    decreases users.len(),
{
    if users.len() == 0 {
        Map::empty()
    } else {
        names_map(users.drop_last()).insert(users.last().0, users.last().1@)
    }
}

/// Every listed user name is valid.
pub open spec fn all_names_valid(users: Seq<UserRow>) -> bool {
    forall|i: int| 0 <= i < users.len() ==> valid_user_name(#[trigger] users[i].1@)
}

/// Every listed title is valid.
pub open spec fn all_titles_valid(rows: Seq<PostRow>) -> bool {
    forall|i: int| 0 <= i < rows.len() ==> valid_title(#[trigger] rows[i].3@)
}

/// Every creator of `rows` has a name in `names`.
pub open spec fn all_creators_named(rows: Seq<PostRow>, names: Map<u64, Seq<char>>) -> bool {
    forall|i: int| 0 <= i < rows.len() ==> names.contains_key(#[trigger] rows[i].1)
}

/// Builds the page from the listed posts and the listed users (the creators'
/// names), posts in the order listed. An invalid stored user name or title,
/// or a creator without a name, is an internal error. The page is exhausted
/// when fewer posts than `size` were listed.
pub fn assemble_output(rows: &Vec<PostRow>, users: &Vec<UserRow>, size: u32) -> (r: Result<
    Output,
    ApiError,
>)
    ensures
        (all_names_valid(users@) && all_titles_valid(rows@) && all_creators_named(
            rows@,
            names_map(users@),
        )) <==> r is Ok,
        r matches Err(e) ==> e@ == error_view(ErrorStatus::InternalServerError, ""@),
        r matches Ok(output) ==> {
            &&& output.exhausted == (rows@.len() < size)
            &&& output.posts@.len() == rows@.len()
            &&& forall|i: int|
                0 <= i < rows@.len() ==> post_matches(
                    rows@[i],
                    names_map(users@)[rows@[i].1],
                    #[trigger] output.posts@[i],
                )
        },
{
    broadcast use vstd::std_specs::hash::group_hash_axioms;

    let mut names: HashMap<u64, UserName> = HashMap::new();
    for i in 0..users.len()
        invariant
            names@.dom() =~= names_map(users@.take(i as int)).dom(),
            forall|k: u64| #[trigger]
                names@.contains_key(k) ==> names@[k]@ == names_map(users@.take(i as int))[k],
            forall|j: int| 0 <= j < i ==> valid_user_name(#[trigger] users@[j].1@),
    {
        assert(users@.take(i + 1).drop_last() =~= users@.take(i as int));
        let user = &users[i];
        let name = match UserName::try_new(user.1.clone()) {
            Ok(name) => name,
            Err(invalid) => return Err(invalid.persisted_invalid()),
        };
        names.insert(user.0, name);
    }
    assert(users@.take(users.len() as int) =~= users@);
    let ghost by_id = names_map(users@);
    let mut posts: Vec<PostInfoForPage> = Vec::new();
    for i in 0..rows.len()
        invariant
            posts@.len() == i,
            by_id == names_map(users@),
            all_names_valid(users@),
            names@.dom() =~= by_id.dom(),
            forall|k: u64| #[trigger] names@.contains_key(k) ==> names@[k]@ == by_id[k],
            forall|j: int| 0 <= j < i ==> by_id.contains_key(#[trigger] rows@[j].1),
            forall|j: int| 0 <= j < i ==> valid_title(#[trigger] rows@[j].3@),
            forall|j: int|
                0 <= j < i ==> post_matches(rows@[j], by_id[rows@[j].1], #[trigger] posts@[j]),
    {
        let row = &rows[i];
        let title = match Title::try_new(row.3.clone()) {
            Ok(title) => title,
            Err(invalid) => return Err(invalid.persisted_invalid()),
        };
        let name = match names.get(&row.1) {
            Some(name) => name.clone(),
            None => {
                assert(!by_id.contains_key(rows@[i as int].1));
                return Err(handle_internal());
            },
        };
        posts.push(
            PostInfoForPage {
                id: PostId(row.0),
                title,
                creator: CreatorInfo { name, id: UserId(row.1) },
                creation_date: Time { utc: row.2 },
            },
        );
    }
    Ok(Output { exhausted: rows.len() < size as usize, posts })
}

} // verus!
