use ref_server::db::{DbError, DbErrorKind};
use ref_server::models::user::request::New;
use ref_server::models::user::response::Patched;
use ref_server::models::user::User;
use ref_server::routes::users::{
    create_user, get_user, list_users, list_users_sql, select_clause, select_columns,
    CreateUserAction, CreateUserEvent, GetUserAction, GetUserEvent, ListUsersAction,
    ListUsersEvent, UsersQuery,
};
use ref_server::routes::Reply;
use ref_server::text::JsonValue;

fn alice(id: u128) -> User {
    User {
        id,
        name: "Alice".to_string(),
        email: "alice@example.com".to_string(),
        created_at: 1_700_000_000_000_000,
    }
}

fn db_error(kind: DbErrorKind, detail: &str) -> DbError {
    DbError { kind, detail: detail.to_string() }
}

fn error_json(body: &str) -> serde_json::Value {
    serde_json::from_str(body).unwrap()
}

// Which columns a listing selects
// ===============================

#[test]
fn select_without_fields_is_id() {
    assert_eq!(select_clause(None), "id");
    assert_eq!(select_columns(None), vec!["id".to_string()]);
}

#[test]
fn api_list_users_with_fields() {
    assert_eq!(select_clause(Some("id")), "id");
    assert_eq!(select_clause(Some("id,name")), "id, name");
    assert_eq!(select_clause(Some("nonexistent")), "id");
}

#[test]
fn api_users_list_users_with_fields() {
    assert_eq!(select_columns(Some("id")), vec!["id".to_string()]);
    assert_eq!(select_columns(Some("id,name")), vec!["id".to_string(), "name".to_string()]);
    assert_eq!(select_columns(Some("nonexistent")), vec!["id".to_string()]);
}

#[test]
fn select_trims_and_skips_empty_names() {
    assert_eq!(select_clause(Some(" email ,, name\t,")), "id, email, name");
    assert_eq!(select_clause(Some("\u{a0}created_at\u{3000}")), "id, created_at");
    assert_eq!(select_clause(Some("")), "id");
    assert_eq!(select_clause(Some(",,,")), "id");
}

#[test]
fn select_keeps_order_and_repeats() {
    assert_eq!(
        select_clause(Some("created_at,email,name,email")),
        "id, created_at, email, name, email"
    );
}

#[test]
fn select_drops_id_and_unknown_and_case_variants() {
    assert_eq!(select_clause(Some("id,ID,Name,password,name;drop")), "id");
    assert_eq!(select_clause(Some("name) FROM users; --")), "id");
}

#[test]
fn list_users_sql_text() {
    assert_eq!(
        list_users_sql(Some("name,email")),
        "SELECT COALESCE(jsonb_agg(to_jsonb(t)), '[]'::jsonb)::text AS data FROM (SELECT id, name, email FROM users) t"
    );
    assert_eq!(
        list_users_sql(None),
        "SELECT COALESCE(jsonb_agg(to_jsonb(t)), '[]'::jsonb)::text AS data FROM (SELECT id FROM users) t"
    );
}

// GET /users
// ==========

#[test]
fn list_users_empty_returns_empty_array() {
    let (flow, action) = list_users(UsersQuery { fields: None });
    assert!(matches!(action, ListUsersAction::Connect));
    assert!(flow.accepts(&ListUsersEvent::Connected));
    let (flow, action) = flow.step(ListUsersEvent::Connected);
    match action {
        ListUsersAction::RunQuery(sql) => assert_eq!(sql, list_users_sql(None)),
        _ => panic!("expected a query"),
    }
    let (flow, action) = flow.step(ListUsersEvent::Fetched("[]".to_string()));
    assert!(!flow.accepts(&ListUsersEvent::Connected));
    match action {
        ListUsersAction::Respond(Reply::Success { status, body }) => {
            assert_eq!(status, 200);
            assert!(body.is_empty());
        }
        _ => panic!("expected a success"),
    }
}

#[test]
fn list_users_returns_fetched_objects() {
    let (flow, _) = list_users(UsersQuery { fields: Some("name".to_string()) });
    let (flow, action) = flow.step(ListUsersEvent::Connected);
    match action {
        ListUsersAction::RunQuery(sql) => assert_eq!(sql, list_users_sql(Some("name"))),
        _ => panic!("expected a query"),
    }
    let data = "[{\"id\": \"00000000-0000-0000-0000-000000000001\", \"name\": \"Bob\"}]";
    let (_, action) = flow.step(ListUsersEvent::Fetched(data.to_string()));
    match action {
        ListUsersAction::Respond(Reply::Success { status, body }) => {
            assert_eq!(status, 200);
            assert_eq!(
                body,
                vec![JsonValue::Object(vec![
                    (
                        "id".to_string(),
                        JsonValue::String("00000000-0000-0000-0000-000000000001".to_string())
                    ),
                    ("name".to_string(), JsonValue::String("Bob".to_string())),
                ])]
            );
        }
        _ => panic!("expected a success"),
    }
}

#[test]
fn list_users_bad_data_is_internal_error() {
    let (flow, _) = list_users(UsersQuery { fields: None });
    let (flow, _) = flow.step(ListUsersEvent::Connected);
    let (_, action) = flow.step(ListUsersEvent::Fetched("{\"id\": 1}".to_string()));
    match action {
        ListUsersAction::Respond(Reply::Failure(e)) => {
            assert_eq!(e.status(), 500);
            assert!(e.message().starts_with('"'));
        }
        _ => panic!("expected a failure"),
    }
}

#[test]
fn list_users_query_failure_is_debug_of_display() {
    let (flow, _) = list_users(UsersQuery { fields: None });
    let (flow, _) = flow.step(ListUsersEvent::Connected);
    let (_, action) = flow.step(ListUsersEvent::QueryFailed("relation \"users\" does not exist".to_string()));
    match action {
        ListUsersAction::Respond(Reply::Failure(e)) => {
            assert_eq!(e.status(), 500);
            assert_eq!(e.message(), "\"relation \\\"users\\\" does not exist\"");
        }
        _ => panic!("expected a failure"),
    }
}

// GET /users/{id}
// ===============

#[test]
fn get_user_found_returns_user() {
    let (flow, action) = get_user(7);
    assert!(matches!(action, GetUserAction::Connect));
    let (flow, action) = flow.step(GetUserEvent::Connected);
    assert!(matches!(action, GetUserAction::FindUser(7)));
    let (_, action) = flow.step(GetUserEvent::Found(alice(7)));
    match action {
        GetUserAction::Respond(Reply::Success { status, body }) => {
            assert_eq!(status, 200);
            assert_eq!(body.id, 7);
            assert_eq!(body.name, "Alice");
            assert_eq!(body.email, "alice@example.com");
        }
        _ => panic!("expected a success"),
    }
}

#[test]
fn api_users_get_nonexistent_user_returns_404() {
    let (flow, _) = get_user(0);
    let (flow, _) = flow.step(GetUserEvent::Connected);
    let (_, action) = flow.step(GetUserEvent::FindFailed(db_error(DbErrorKind::NotFound, "NotFound")));
    match action {
        GetUserAction::Respond(Reply::Failure(e)) => {
            assert_eq!(e.status(), 404);
            assert_eq!(e.message(), "User 00000000-0000-0000-0000-000000000000 not found");
            let json = error_json(&e.body());
            assert!(json.get("error").and_then(|v| v.as_str()).unwrap().contains("not found"));
        }
        _ => panic!("expected a failure"),
    }
}

#[test]
fn get_user_other_failure_is_internal() {
    let (flow, _) = get_user(0);
    let (flow, _) = flow.step(GetUserEvent::Connected);
    let (_, action) = flow.step(GetUserEvent::FindFailed(db_error(DbErrorKind::Other, "ClosedConnection")));
    match action {
        GetUserAction::Respond(Reply::Failure(e)) => {
            assert_eq!(e.status(), 500);
            assert_eq!(e.message(), "ClosedConnection");
        }
        _ => panic!("expected a failure"),
    }
}

#[test]
fn connection_failure_is_internal() {
    let (flow, _) = get_user(1);
    assert!(!flow.accepts(&GetUserEvent::Found(alice(1))));
    let (flow, action) = flow.step(GetUserEvent::ConnectFailed("TimedOut".to_string()));
    assert!(!flow.accepts(&GetUserEvent::Connected));
    match action {
        GetUserAction::Respond(Reply::Failure(e)) => {
            assert_eq!(e.status(), 500);
            assert_eq!(e.message(), "TimedOut");
        }
        _ => panic!("expected a failure"),
    }
}

// POST /users
// ===========

fn new_bob() -> New {
    New { name: "Bob".to_string(), email: "bob@example.com".to_string() }
}

#[test]
fn create_and_get_user() {
    let (flow, action) = create_user(new_bob());
    assert!(matches!(action, CreateUserAction::Connect));
    let (flow, action) = flow.step(CreateUserEvent::Connected);
    match action {
        CreateUserAction::Insert(n) => {
            assert_eq!(n.name, "Bob");
            assert_eq!(n.email, "bob@example.com");
        }
        _ => panic!("expected an insert"),
    }
    let stored = User { id: 9, name: "Bob".to_string(), email: "bob@example.com".to_string(), created_at: 5 };
    let (_, action) = flow.step(CreateUserEvent::Inserted(stored));
    match action {
        CreateUserAction::Respond(Reply::Success { status, body }) => {
            // Create response only returns the id; name/email are not echoed back.
            assert_eq!(status, 201);
            assert_eq!(body.id, 9);
        }
        _ => panic!("expected a success"),
    }
}

#[test]
fn api_users_create_duplicate_email_returns_409() {
    let (flow, _) = create_user(new_bob());
    let (flow, _) = flow.step(CreateUserEvent::Connected);
    let (_, action) = flow.step(CreateUserEvent::InsertFailed(db_error(
        DbErrorKind::UniqueViolation,
        "DatabaseError(UniqueViolation, ..)",
    )));
    match action {
        CreateUserAction::Respond(Reply::Failure(e)) => {
            assert_eq!(e.status(), 409);
            let json = error_json(&e.body());
            assert!(json.get("error").and_then(|v| v.as_str()).unwrap().contains("already exists"));
        }
        _ => panic!("expected a failure"),
    }
}

#[test]
fn create_user_other_failure_is_internal() {
    let (flow, _) = create_user(new_bob());
    let (flow, _) = flow.step(CreateUserEvent::Connected);
    let (_, action) = flow.step(CreateUserEvent::InsertFailed(db_error(DbErrorKind::NotFound, "NotFound")));
    match action {
        CreateUserAction::Respond(Reply::Failure(e)) => {
            assert_eq!(e.status(), 500);
            assert_eq!(e.message(), "NotFound");
        }
        _ => panic!("expected a failure"),
    }
}

// PATCH representation
// ====================

#[test]
fn patched_from_user_keeps_id_name_email() {
    let u = alice(3);
    let p = Patched::from(&u);
    assert_eq!(p.id, 3);
    assert_eq!(p.name, "Alice");
    assert_eq!(p.email, "alice@example.com");
}
