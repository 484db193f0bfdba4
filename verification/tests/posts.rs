use ref_server::db::{DbError, DbErrorKind};
use ref_server::models::post::request::NewPayload;
use ref_server::models::post::Post;
use ref_server::routes::posts::{
    create_post, list_posts, nonempty_body, CreatePostAction, CreatePostEvent, ListPostsAction,
    ListPostsEvent,
};
use ref_server::routes::Reply;

fn payload(title: &str, body: Option<&str>) -> NewPayload {
    NewPayload { title: title.to_string(), body: body.map(|b| b.to_string()) }
}

fn post(id: u128, user_id: u128) -> Post {
    Post {
        id,
        user_id,
        title: "Hello World".to_string(),
        body: Some("My first post".to_string()),
        created_at: 1,
    }
}

#[test]
fn empty_body_is_stored_as_none() {
    assert_eq!(nonempty_body(Some(String::new())), None);
    assert_eq!(nonempty_body(None), None);
    assert_eq!(nonempty_body(Some(" ".to_string())), Some(" ".to_string()));
    assert_eq!(nonempty_body(Some("My first post".to_string())), Some("My first post".to_string()));
}

#[test]
fn create_and_list_posts() {
    let (flow, action) = create_post(5, payload("Hello World", Some("My first post")));
    assert!(matches!(action, CreatePostAction::Connect));
    let (flow, action) = flow.step(CreatePostEvent::Connected);
    assert!(matches!(action, CreatePostAction::FindUser(5)));
    let (flow, action) = flow.step(CreatePostEvent::UserFound);
    match action {
        CreatePostAction::Insert(n) => {
            assert_eq!(n.user_id, 5);
            assert_eq!(n.title, "Hello World");
            assert_eq!(n.body.as_deref(), Some("My first post"));
        }
        _ => panic!("expected an insert"),
    }
    let (_, action) = flow.step(CreatePostEvent::Inserted(post(11, 5)));
    match action {
        CreatePostAction::Respond(Reply::Success { status, body }) => {
            assert_eq!(status, 201);
            assert_eq!(body.id, 11);
        }
        _ => panic!("expected a success"),
    }

    let (flow, action) = list_posts(5);
    assert!(matches!(action, ListPostsAction::Connect));
    let (flow, action) = flow.step(ListPostsEvent::Connected);
    assert!(matches!(action, ListPostsAction::LoadPosts(5)));
    let (_, action) = flow.step(ListPostsEvent::Loaded(vec![post(11, 5)]));
    match action {
        ListPostsAction::Respond(Reply::Success { status, body }) => {
            assert_eq!(status, 200);
            assert_eq!(body.len(), 1);
            assert_eq!(body[0].id, 11);
            assert_eq!(body[0].user_id, 5);
        }
        _ => panic!("expected a success"),
    }
}

#[test]
fn create_post_without_body_defaults_to_empty() {
    let (flow, _) = create_post(5, payload("No body post", None));
    let (flow, _) = flow.step(CreatePostEvent::Connected);
    let (_, action) = flow.step(CreatePostEvent::UserFound);
    match action {
        CreatePostAction::Insert(n) => {
            assert_eq!(n.title, "No body post");
            assert_eq!(n.body, None);
        }
        _ => panic!("expected an insert"),
    }
    let (flow, _) = create_post(5, payload("Empty body post", Some("")));
    let (flow, _) = flow.step(CreatePostEvent::Connected);
    let (_, action) = flow.step(CreatePostEvent::UserFound);
    match action {
        CreatePostAction::Insert(n) => assert_eq!(n.body, None),
        _ => panic!("expected an insert"),
    }
}

#[test]
fn create_post_nonexistent_user_returns_404() {
    let (flow, _) = create_post(0, payload("Orphan post", Some("This should fail")));
    let (flow, _) = flow.step(CreatePostEvent::Connected);
    assert!(!flow.accepts(&CreatePostEvent::Inserted(post(1, 0))));
    let (flow, action) = flow.step(CreatePostEvent::UserLookupFailed(DbError {
        kind: DbErrorKind::NotFound,
        detail: "NotFound".to_string(),
    }));
    assert!(!flow.accepts(&CreatePostEvent::UserFound));
    match action {
        CreatePostAction::Respond(Reply::Failure(e)) => {
            assert_eq!(e.status(), 404);
            let json: serde_json::Value = serde_json::from_str(&e.body()).unwrap();
            assert!(json.get("error").and_then(|v| v.as_str()).unwrap().contains("not found"));
        }
        _ => panic!("expected a failure"),
    }
}

#[test]
fn create_post_insert_failure_is_internal() {
    let (flow, _) = create_post(5, payload("t", None));
    let (flow, _) = flow.step(CreatePostEvent::Connected);
    let (flow, _) = flow.step(CreatePostEvent::UserFound);
    let (_, action) = flow.step(CreatePostEvent::InsertFailed(DbError {
        kind: DbErrorKind::Other,
        detail: "SerializationError".to_string(),
    }));
    match action {
        CreatePostAction::Respond(Reply::Failure(e)) => {
            assert_eq!(e.status(), 500);
            assert_eq!(e.message(), "SerializationError");
        }
        _ => panic!("expected a failure"),
    }
}

#[test]
fn list_posts_nonexistent_user_returns_empty() {
    let (flow, _) = list_posts(0);
    let (flow, _) = flow.step(ListPostsEvent::Connected);
    let (_, action) = flow.step(ListPostsEvent::Loaded(Vec::new()));
    match action {
        ListPostsAction::Respond(Reply::Success { status, body }) => {
            assert_eq!(status, 200);
            assert!(body.is_empty());
        }
        _ => panic!("expected a success"),
    }
}

#[test]
fn list_posts_failure_is_internal() {
    let (flow, _) = list_posts(0);
    let (flow, _) = flow.step(ListPostsEvent::Connected);
    let (_, action) = flow.step(ListPostsEvent::LoadFailed(DbError {
        kind: DbErrorKind::Other,
        detail: "BrokenTransactionManager".to_string(),
    }));
    match action {
        ListPostsAction::Respond(Reply::Failure(e)) => {
            assert_eq!(e.status(), 500);
            assert_eq!(e.message(), "BrokenTransactionManager");
        }
        _ => panic!("expected a failure"),
    }
}
