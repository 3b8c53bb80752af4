use rustpost_api::common::error::{ApiError, ErrorStatus};
use rustpost_api::common::{AdminId, Identity, PostId, UserId};
use rustpost_api::delete_post::{on_admin_checked, on_creator_fetched, on_deleted, start, Action};

/// Answers of a storage stand-in; deleting panics with the given message
/// where it must not happen.
struct Mock {
    is_admin: bool,
    creator: u64,
    delete: Result<(), &'static str>,
}

fn run(mock: &Mock, caller: Identity, post: PostId) -> Result<(), ApiError> {
    let mut action = start(caller, post);
    loop {
        action = match action {
            Action::CheckAdmin(_) => on_admin_checked(if mock.is_admin { 1 } else { 0 }, post),
            Action::GetPostCreator(p) => {
                let user = match caller {
                    Identity::User(user) => user,
                    _ => panic!("only a user's deletion asks for the creator"),
                };
                on_creator_fetched(user, Some(mock.creator), p)
            }
            Action::DeletePost(_) => match mock.delete {
                Ok(()) => on_deleted(1),
                Err(message) => panic!("{}", message),
            },
            Action::Finish(r) => return r,
        }
    }
}

#[test]
fn test_not_be_deleted_by_guest() {
    let mock = Mock { is_admin: false, creator: 1, delete: Err("post shouldn't be deleted by a guest") };
    assert!(run(&mock, Identity::Guest, PostId(1)).is_err());
}

#[test]
fn test_not_delete_by_not_creator() {
    let mock = Mock {
        is_admin: false,
        creator: 1,
        delete: Err("post shouldn't be deleted by an user that is not the creator"),
    };
    assert!(run(&mock, Identity::User(UserId(2)), PostId(1)).is_err());
}

#[test]
fn test_deleted_by_creator() {
    let mock = Mock { is_admin: false, creator: 1, delete: Ok(()) };
    assert!(run(&mock, Identity::User(UserId(1)), PostId(1)).is_ok());
}

#[test]
fn test_deleted_by_admin() {
    let mock = Mock { is_admin: true, creator: 1, delete: Ok(()) };
    assert!(run(&mock, Identity::Admin(AdminId(2)), PostId(1)).is_ok());
}

#[test]
fn refusals_name_their_reason() {
    let mock = Mock { is_admin: false, creator: 1, delete: Err("post shouldn't be deleted") };
    let e = run(&mock, Identity::Guest, PostId(1)).unwrap_err();
    assert_eq!((e.status, e.body.as_str()), (ErrorStatus::Unauthorized, "UNAUTHENTICATED"));
    let e = run(&mock, Identity::User(UserId(2)), PostId(1)).unwrap_err();
    assert_eq!((e.status, e.body.as_str()), (ErrorStatus::Forbidden, "UNAUTHORIZED"));
    let e = run(&mock, Identity::Admin(AdminId(2)), PostId(1)).unwrap_err();
    assert_eq!((e.status, e.body.as_str()), (ErrorStatus::Forbidden, "UNAUTHORIZED"));
}

#[test]
fn missing_post_is_not_found() {
    match on_creator_fetched(UserId(1), None, PostId(4)) {
        Action::Finish(Err(e)) => {
            assert_eq!((e.status, e.body.as_str()), (ErrorStatus::NotFound, "POST_NOT_FOUND"))
        }
        other => panic!("unexpected {:?}", other),
    }
    match on_deleted(0) {
        Action::Finish(Err(e)) => assert_eq!(e.body, "POST_NOT_FOUND"),
        other => panic!("unexpected {:?}", other),
    }
    assert!(matches!(on_deleted(2), Action::Finish(Ok(()))));
    assert!(matches!(start(Identity::Admin(AdminId(3)), PostId(4)), Action::CheckAdmin(AdminId(3))));
}
