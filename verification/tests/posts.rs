use rustpost_api::common::error::ErrorStatus;
use rustpost_api::common::utils::db;
use rustpost_api::common::utils::format_id;
use rustpost_api::common::{PostContent, PostId, Time, UserId};
use rustpost_api::create_post::api::{
    content_from_request, output_to_response as created, to_input as creation,
    RequestDto as CreateRequest,
};
use rustpost_api::create_post::store_error;
use rustpost_api::edit_post::{
    checks_user_is_creator_and_content_has_the_same_post_type, update_post_result,
};
use rustpost_api::get_post::api::output_to_response as post_page;
use rustpost_api::get_post::{build_post_info, on_post_fetched};
use rustpost_api::get_posts_for_index::api::{
    condition_from, output_to_response, to_input, RequestDto, DEFAULT_PAGE_SIZE,
};
use rustpost_api::get_posts_for_index::{assemble_output, users_query, Condition, Query};

fn row(id: u64, creator: u64, time: u64, title: &str) -> (u64, u64, u64, String) {
    (id, creator, time, title.to_string())
}

#[test]
fn users_query_lists_creators() {
    let rows = vec![row(1, 12, 100, "a"), row(2, 7, 90, "b")];
    assert_eq!(
        String::from_utf8(users_query(&rows)).unwrap(),
        "SELECT id,username FROM users WHERE id IN (12,7)"
    );
    assert_eq!(
        String::from_utf8(users_query(&vec![row(1, 0, 1, "a")])).unwrap(),
        "SELECT id,username FROM users WHERE id IN (0)"
    );
    // With no post, the opening parenthesis is the byte replaced.
    assert_eq!(
        String::from_utf8(users_query(&vec![])).unwrap(),
        "SELECT id,username FROM users WHERE id IN )"
    );
}

#[test]
fn page_is_assembled_in_listed_order() {
    let rows = vec![row(1, 12, 100, "first"), row(2, 7, 90, "second")];
    let names = vec![(7u64, "bob".to_string()), (12u64, "alice".to_string()), (5u64, "x".to_string())];
    let output = assemble_output(&rows, &names, 2).unwrap();
    assert!(!output.exhausted);
    assert_eq!(output.posts.len(), 2);
    assert_eq!(output.posts[0].id, PostId(1));
    assert_eq!(output.posts[0].creator.name.as_str(), "alice");
    assert_eq!(output.posts[0].title.as_str(), "first");
    assert_eq!(output.posts[1].creator.id, UserId(7));
    assert_eq!(output.posts[1].creation_date, Time { utc: 90 });
    let output = assemble_output(&rows, &names, 3).unwrap();
    assert!(output.exhausted);
    let response = output_to_response(output);
    assert!(response.exhausted);
    assert_eq!(response.info[0].id, format_id(1));
    assert_eq!(response.info[0].creatorName, "alice");
    assert_eq!(response.info[1].creatorId, format_id(7));
    assert_eq!(response.info[1].title, "second");
    assert_eq!(response.info[1].creationTime, 90);
}

#[test]
fn page_without_a_creator_name_is_an_internal_error() {
    let rows = vec![row(1, 12, 100, "first")];
    let e = assemble_output(&rows, &vec![], 2).unwrap_err();
    assert_eq!(e.status, ErrorStatus::InternalServerError);
    assert_eq!(e.body, "");
    // An invalid stored name, even of a user without a listed post, or an
    // invalid stored title, is an internal error too.
    let names = vec![(12u64, "alice".to_string()), (3u64, String::new())];
    assert!(assemble_output(&rows, &names, 2).is_err());
    let names = vec![(12u64, "alice".to_string())];
    assert!(assemble_output(&vec![row(1, 12, 100, "")], &names, 2).is_err());
    assert!(assemble_output(&rows, &names, 2).is_ok());
}

#[test]
fn page_request_takes_the_named_or_default_size() {
    let q = to_input(RequestDto { before: None, after: Some(4), size: Some(7) }).unwrap();
    assert_eq!(q, Query { condition: Condition::After(Time { utc: 4 }), size: 7 });
    let q = to_input(RequestDto { before: None, after: None, size: None }).unwrap();
    assert_eq!(q.size, DEFAULT_PAGE_SIZE);
    assert!(to_input(RequestDto { before: Some(1), after: Some(4), size: None }).is_err());
}

#[test]
fn condition_takes_at_most_one_bound() {
    assert_eq!(condition_from(None, None).unwrap(), Condition::No);
    assert_eq!(condition_from(Some(5), None).unwrap(), Condition::Before(Time { utc: 5 }));
    assert_eq!(condition_from(None, Some(6)).unwrap(), Condition::After(Time { utc: 6 }));
    let e = condition_from(Some(5), Some(6)).unwrap_err();
    assert_eq!((e.status, e.body.as_str()), (ErrorStatus::BadRequest, "BOTH_BEFORE_AFTER"));
}

#[test]
fn content_is_exactly_one_of_text_and_link() {
    match content_from_request(Some("hi".to_string()), None).unwrap() {
        PostContent::Post(text) => assert_eq!(text, "hi"),
        other => panic!("unexpected {:?}", other),
    }
    match content_from_request(None, Some("https://example.com".to_string())).unwrap() {
        PostContent::Url(url) => assert_eq!(url.as_str(), "https://example.com/"),
        other => panic!("unexpected {:?}", other),
    }
    let e = content_from_request(None, Some("not a url".to_string())).unwrap_err();
    assert_eq!(e.status, ErrorStatus::UnprocessableEntity);
    assert_eq!(e.body, "URL_INVALID: relative URL without a base");
    let e = content_from_request(Some("a".to_string()), Some("https://a.b".to_string())).unwrap_err();
    assert_eq!((e.status, e.body.as_str()), (ErrorStatus::BadRequest, "ONLY_EXACT_ONE_OF_POST_URL"));
    let e = content_from_request(None, None).unwrap_err();
    assert_eq!(e.body, "ONLY_EXACT_ONE_OF_POST_URL");
}

#[test]
fn stored_content_reads_back() {
    let stored = db::PostContent::from_model(PostContent::Post("hello".to_string()));
    assert_eq!(stored.post_type, "post");
    assert_eq!(stored.content, "hello");
    let link = PostContent::parse_url("https://example.com/a?b".to_string()).unwrap();
    let stored = db::PostContent::from_model(link);
    assert_eq!(stored.post_type, "url");
    assert_eq!(stored.content, "https://example.com/a?b");
    let back = db::PostContent { post_type: "url".to_string(), content: stored.content }
        .try_into_model()
        .unwrap();
    assert!(matches!(back, PostContent::Url(ref u) if u.as_str() == "https://example.com/a?b"));
    let back = db::PostContent { post_type: "post".to_string(), content: "x".to_string() }
        .try_into_model()
        .unwrap();
    assert!(matches!(back, PostContent::Post(ref t) if t == "x"));
    let invalid = db::PostContent { post_type: "video".to_string(), content: "x".to_string() }
        .try_into_model()
        .unwrap_err();
    assert_eq!(invalid.value, "video");
    assert_eq!(invalid.body, "INVALID_POST_TYPE");
}

#[test]
fn post_page_is_built_from_its_row() {
    let e = on_post_fetched(None).unwrap_err();
    assert_eq!((e.status, e.body.as_str()), (ErrorStatus::NotFound, "POST_NOT_FOUND"));
    let row = (3u64, 50u64, Some(60u64), "t".to_string(), "post".to_string(), "body".to_string());
    let row = on_post_fetched(Some(row)).unwrap();
    let info = build_post_info(row, Some("carol".to_string())).unwrap();
    assert_eq!(info.creator.id, UserId(3));
    assert_eq!(info.last_modified, Some(Time { utc: 60 }));
    let page = post_page(info);
    assert_eq!(page.creatorId, format_id(3));
    assert_eq!(page.creatorName, "carol");
    assert_eq!(page.creationTime, 50);
    assert_eq!(page.post.as_deref(), Some("body"));
    assert_eq!(page.url, None);
    assert_eq!(page.lastModified, Some(60));
    let row = (3u64, 50u64, None, "t".to_string(), "post".to_string(), "body".to_string());
    let e = build_post_info(row, None).unwrap_err();
    assert_eq!(e.status, ErrorStatus::InternalServerError);
    let row = (3u64, 50u64, None, "t".to_string(), "gif".to_string(), "body".to_string());
    assert!(build_post_info(row, Some("carol".to_string())).is_err());
    let row = (3u64, 50u64, None, String::new(), "post".to_string(), "body".to_string());
    assert!(build_post_info(row, Some("carol".to_string())).is_err());
    let row = (3u64, 50u64, None, "t".to_string(), "post".to_string(), "body".to_string());
    assert!(build_post_info(row, Some(String::new())).is_err());
}

#[test]
fn only_the_creator_edits_with_the_same_kind() {
    let text = PostContent::Post("new".to_string());
    assert!(checks_user_is_creator_and_content_has_the_same_post_type(
        Some((1, "post".to_string())),
        UserId(1),
        &text
    )
    .is_ok());
    let e = checks_user_is_creator_and_content_has_the_same_post_type(
        Some((1, "post".to_string())),
        UserId(2),
        &text,
    )
    .unwrap_err();
    assert_eq!((e.status, e.body.as_str()), (ErrorStatus::Forbidden, "NOT_CREATOR"));
    let e = checks_user_is_creator_and_content_has_the_same_post_type(
        Some((1, "url".to_string())),
        UserId(1),
        &text,
    )
    .unwrap_err();
    assert_eq!((e.status, e.body.as_str()), (ErrorStatus::BadRequest, "CONTENT_TYPE_DIFF"));
    let e = checks_user_is_creator_and_content_has_the_same_post_type(None, UserId(1), &text)
        .unwrap_err();
    assert_eq!((e.status, e.body.as_str()), (ErrorStatus::NotFound, "POST_NOT_FOUND"));
    assert!(update_post_result(1).is_ok());
    assert_eq!(update_post_result(0).unwrap_err().body, "POST_NOT_FOUND");
}

#[test]
fn creation_answers_location_and_id() {
    let (location, dto) = created(PostId(1));
    assert_eq!(location, "/post/AQAAAAAAAAA");
    assert_eq!(dto.postId, "AQAAAAAAAAA");
    let e = store_error(Some("23000"));
    assert_eq!((e.status, e.body.as_str()), (ErrorStatus::Conflict, "DUPLICATE_TITLE"));
    let e = store_error(Some("42000"));
    assert_eq!(e.status, ErrorStatus::InternalServerError);
    let e = store_error(None);
    assert_eq!(e.status, ErrorStatus::InternalServerError);
}

#[test]
fn creation_needs_a_title() {
    let e = creation(CreateRequest { title: String::new(), post: Some("x".to_string()), url: None })
        .unwrap_err();
    assert_eq!((e.status, e.body.as_str()), (ErrorStatus::UnprocessableEntity, "TITLE_EMPTY"));
    let c = creation(CreateRequest { title: "t".to_string(), post: Some("x".to_string()), url: None })
        .unwrap();
    assert_eq!(c.info.title.as_str(), "t");
}
