use ref_server::routes::{build_cors, AllowedOrigins, CorsHeader, CorsMethod, CorsPolicy};

fn origins(list: &[&str]) -> Vec<String> {
    list.iter().map(|s| s.to_string()).collect()
}

fn assert_standard_grants(p: &CorsPolicy) {
    assert_eq!(p.allow_methods.len(), 4);
    assert!(matches!(p.allow_methods[0], CorsMethod::Get));
    assert!(matches!(p.allow_methods[1], CorsMethod::Post));
    assert!(matches!(p.allow_methods[2], CorsMethod::Patch));
    assert!(matches!(p.allow_methods[3], CorsMethod::Delete));
    assert_eq!(p.allow_headers.len(), 2);
    assert!(matches!(p.allow_headers[0], CorsHeader::ContentType));
    assert!(matches!(p.allow_headers[1], CorsHeader::Authorization));
}

fn listed(p: &CorsPolicy) -> Vec<String> {
    match &p.allow_origin {
        AllowedOrigins::List(l) => l.clone(),
        AllowedOrigins::Any => panic!("expected a list of origins"),
    }
}

#[test]
fn cors_specific_origin_allowed() {
    let p = build_cors(origins(&["https://mypage.com"])).expect("CORS enabled");
    assert_eq!(listed(&p), origins(&["https://mypage.com"]));
    assert_standard_grants(&p);
}

#[test]
fn cors_specific_origin_rejected() {
    let p = build_cors(origins(&["https://mypage.com"])).expect("CORS enabled");
    assert!(!listed(&p).contains(&"https://evil.com".to_string()));
}

#[test]
fn cors_wildcard_allows_any_origin() {
    let p = build_cors(origins(&["*"])).expect("CORS enabled");
    assert!(matches!(p.allow_origin, AllowedOrigins::Any));
    assert_standard_grants(&p);
}

#[test]
fn cors_disabled_when_empty() {
    assert!(build_cors(Vec::new()).is_none());
}

#[test]
fn cors_wildcard_wins_over_listed_origins() {
    let p = build_cors(origins(&["https://a.example", "*", "bad\nvalue"])).expect("CORS enabled");
    assert!(matches!(p.allow_origin, AllowedOrigins::Any));
}

#[test]
fn cors_skips_invalid_origins() {
    let p = build_cors(origins(&["bad\nvalue", "https://a.example", "x\u{7f}", "https://b.example"]))
        .expect("CORS enabled");
    assert_eq!(listed(&p), origins(&["https://a.example", "https://b.example"]));
}

#[test]
fn cors_disabled_when_no_origin_is_valid() {
    assert!(build_cors(origins(&["bad\nvalue", "also\rbad"])).is_none());
}

#[test]
fn cors_accepts_tab_and_non_ascii() {
    let p = build_cors(origins(&["a\tb", "https://caf\u{e9}.example"])).expect("CORS enabled");
    assert_eq!(listed(&p), origins(&["a\tb", "https://caf\u{e9}.example"]));
}
