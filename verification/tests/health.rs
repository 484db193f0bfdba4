use ref_server::routes::health::health;

fn expected() -> serde_json::Value {
    let mut m = serde_json::Map::new();
    m.insert("status".to_string(), serde_json::Value::String("ok".to_string()));
    serde_json::Value::Object(m)
}

#[test]
fn health_returns_ok() {
    let body: serde_json::Value = serde_json::from_str(&health()).unwrap();
    assert_eq!(body, expected());
}

#[test]
fn health_status_is_string_ok() {
    let body: serde_json::Value = serde_json::from_str(&health()).unwrap();
    assert_eq!(body.get("status").and_then(|v| v.as_str()), Some("ok"));
}

#[test]
fn health_body_is_exact() {
    assert_eq!(health(), "{\"status\":\"ok\"}");
}
