# rustpost_api

The request-handling logic of a small posting service (users, administrators,
text and link posts), verified with Verus, and the HTTP server around it.

- `src/` — the verified library.
  - `common/` — identifiers, identities, post contents and URLs, error
    answers (`error.rs`), validation failures and the textual form of
    identifiers (`utils/mod.rs`), identity tokens (`utils/auth.rs`), the
    stored form of contents (`utils/db.rs`), and the calls into `base64`,
    `aes-gcm`, `rand`, `bcrypt` and `url` (`utils/base64url.rs`,
    `utils/crypto.rs`, `common/mod.rs`).
  - one module per endpoint (`admin_token`, `user_token`, `user_register`,
    `get_identity`, `create_post`, `edit_post`, `delete_post`, `get_post`,
    `get_posts_for_index`): the request and answer forms (`api.rs`) and the
    decisions taken between storage round trips.
- `app/` — the actix-web server: configuration, the MySQL round trips, the
  clock, and the JSON forms of requests and answers.
- `tests/` — tests of the library.
