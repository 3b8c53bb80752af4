//! Request-handling logic of a small posting service: identities and
//! authentication tokens, identifiers, post contents, and the decisions each
//! endpoint takes between its storage round trips.

pub mod common;
pub mod delete_post;
pub mod get_post;
pub mod get_posts_for_index;
pub mod get_identity;
pub mod admin_token;
pub mod user_register;
pub mod create_post;
pub mod user_token;
pub mod edit_post;
