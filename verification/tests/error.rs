use ref_server::error::AppError;

fn body_json(e: &AppError) -> serde_json::Value {
    serde_json::from_str(&e.body()).unwrap()
}

fn error_field(e: &AppError) -> Option<String> {
    body_json(e).get("error").and_then(|v| v.as_str()).map(|s| s.to_string())
}

#[test]
fn internal_error_returns_500() {
    let e = AppError::internal(format!("{:?}", "db connection failed"));
    assert_eq!(e.status(), 500);
}

#[test]
fn internal_error_includes_message() {
    let e = AppError::internal(format!("{:?}", "db connection failed"));
    let msg = error_field(&e).expect("error field");
    assert!(msg.contains("db connection failed"));
    assert_eq!(msg, "\"db connection failed\"");
}

#[test]
fn not_found_returns_404() {
    let e = AppError::not_found("User 123 not found");
    assert_eq!(e.status(), 404);
}

#[test]
fn not_found_includes_message() {
    let e = AppError::not_found("User 123 not found");
    assert_eq!(error_field(&e).as_deref(), Some("User 123 not found"));
    assert_eq!(e.message(), "User 123 not found");
}

#[test]
fn conflict_returns_409() {
    let e = AppError::conflict("email already taken");
    assert_eq!(e.status(), 409);
}

#[test]
fn conflict_includes_message() {
    let e = AppError::conflict("email already taken");
    assert_eq!(error_field(&e).as_deref(), Some("email already taken"));
}

#[test]
fn plain_message_body_is_exact() {
    let e = AppError::not_found("User 123 not found");
    assert_eq!(e.body(), "{\"error\":\"User 123 not found\"}");
}

#[test]
fn body_escapes_quotes_backslashes_and_controls() {
    let e = AppError::conflict("a \"b\" \\ c\nd\u{1}");
    assert_eq!(e.body(), "{\"error\":\"a \\\"b\\\" \\\\ c\\nd\\u0001\"}");
    assert_eq!(error_field(&e).as_deref(), Some("a \"b\" \\ c\nd\u{1}"));
}

#[test]
fn body_keeps_non_ascii_and_slash() {
    let e = AppError::conflict("caf\u{e9}/\u{1F600}");
    assert_eq!(e.body(), "{\"error\":\"caf\u{e9}/\u{1F600}\"}");
}
