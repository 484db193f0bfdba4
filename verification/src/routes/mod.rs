//! Routing: what each endpoint answers, and which cross-origin requests the
//! server admits.
pub mod health;
pub mod posts;
pub mod users;

use vstd::prelude::*;

use crate::error::AppError;
use crate::text::views;

verus! {

/// What a handler answers: a success status with its body, or an error.
pub enum Reply<T> {
    Success { status: u16, body: T },
    Failure(AppError),
}

/// A byte that an HTTP header value may hold: a visible ASCII character, a
/// space, a tab, or any byte from 0x80 up.
pub open spec fn header_value_byte(b: u8) -> bool {
    (b >= 32 && b != 127) || b == 9
}

/// Whether `s`, encoded as UTF-8, is a valid HTTP header value.
pub open spec fn valid_header_value(s: Seq<char>) -> bool {
    forall|i: int|
        0 <= i < vstd::utf8::encode_utf8(s).len() ==> header_value_byte(
            #[trigger] vstd::utf8::encode_utf8(s)[i],
        )
}

/// `HeaderValue::from_str` (re-exported by axum from the http crate) succeeds
/// exactly when every byte of `s` is a byte that a header value may hold
/// (`is_valid` in http's `header/value.rs`).
#[verifier::external_body]
fn parses_as_header_value(s: &str) -> (ok: bool)
    ensures
        ok == valid_header_value(s@),
{
    axum::http::HeaderValue::from_str(s).is_ok()
}

/// Which origins a cross-origin request may come from.
pub enum AllowedOrigins {
    /// Any origin (`Access-Control-Allow-Origin: *`).
    Any,
    /// Exactly the listed origins.
    List(Vec<String>),
}

/// The request methods that cross-origin requests may use.
pub enum CorsMethod {
    Get,
    Post,
    Patch,
    Delete,
}

/// The request headers that cross-origin requests may send.
pub enum CorsHeader {
    ContentType,
    Authorization,
}

/// The cross-origin policy of the server.
pub struct CorsPolicy {
    pub allow_origin: AllowedOrigins,
    pub allow_methods: Vec<CorsMethod>,
    pub allow_headers: Vec<CorsHeader>,
}

/// The origins among `origins` that are valid header values, in order.
pub open spec fn valid_origins(origins: Seq<Seq<char>>) -> Seq<Seq<char>>
    decreases origins.len(),
{
    if origins.len() == 0 {
        Seq::<Seq<char>>::empty()
    } else {
        let before = valid_origins(origins.drop_last());
        if valid_header_value(origins.last()) {
            before.push(origins.last())
        } else {
            before
        }
    }
}

/// The configured origin `*`, which allows any origin.
pub open spec fn wildcard() -> Seq<char> {
    "*"@
}

/// The methods and headers of every policy: GET, POST, PATCH and DELETE, with
/// the `Content-Type` and `Authorization` headers.
pub open spec fn standard_grants(p: CorsPolicy) -> bool {
    &&& p.allow_methods@ == seq![CorsMethod::Get, CorsMethod::Post, CorsMethod::Patch, CorsMethod::Delete]
    &&& p.allow_headers@ == seq![CorsHeader::ContentType, CorsHeader::Authorization]
}

/// Whether some element of `v` is `s`.
fn contains_string(v: &Vec<String>, s: &str) -> (b: bool)
    ensures
        b == views(v@).contains(s@),
{
    let t = s.to_owned();
    let mut i: usize = 0;
    while i < v.len()
        invariant
            i <= v.len(),
            t@ == s@,
            forall|k: int| 0 <= k < i ==> v@[k]@ != s@,
        decreases v.len() - i,
    {
        if v[i] == t {
            assert(views(v@)[i as int] == s@);
            return true;
        }
        i = i + 1;
    }
    assert forall|k: int| 0 <= k < views(v@).len() implies views(v@)[k] != s@ by {
        assert(views(v@)[k] == v@[k]@);
    }
    false
}

/// The cross-origin policy for the configured origins, or `None` when
/// cross-origin requests get no CORS headers at all.
///
/// An empty list disables CORS; a list holding `*` allows any origin;
/// otherwise the origins that are valid header values are allowed, and CORS
/// is disabled when none of them is.
pub fn build_cors(origins: Vec<String>) -> (policy: Option<CorsPolicy>)
    ensures
        origins@.len() == 0 ==> policy is None,
        origins@.len() > 0 && views(origins@).contains(wildcard()) ==> (policy matches Some(p)
            && p.allow_origin is Any && standard_grants(p)),
        !views(origins@).contains(wildcard()) ==> (match policy {
            None => valid_origins(views(origins@)).len() == 0,
            Some(p) => p.allow_origin matches AllowedOrigins::List(l) && views(l@) == valid_origins(
                views(origins@),
            ) && l@.len() > 0 && standard_grants(p),
        }),
{
    if origins.len() == 0 {
        return None;
    }
    let allow_origin = if contains_string(&origins, "*") {
        AllowedOrigins::Any
    } else {
        let mut parsed: Vec<String> = Vec::new();
        let mut i: usize = 0;
        while i < origins.len()
            invariant
                i <= origins.len(),
                views(parsed@) == valid_origins(views(origins@).take(i as int)),
            decreases origins.len() - i,
        {
            proof {
                assert(views(origins@).take(i + 1).drop_last() =~= views(origins@).take(i as int));
                assert(views(origins@).take(i + 1).last() == origins@[i as int]@);
            }
            if parses_as_header_value(origins[i].as_str()) {
                let ghost before = views(parsed@);
                parsed.push(origins[i].clone());
                assert(views(parsed@) =~= before.push(origins@[i as int]@));
            }
            i = i + 1;
        }
        assert(views(origins@).take(origins.len() as int) =~= views(origins@));
        if parsed.len() == 0 {
            return None;
        }
        AllowedOrigins::List(parsed)
    };
    let mut allow_methods: Vec<CorsMethod> = Vec::new();
    allow_methods.push(CorsMethod::Get);
    allow_methods.push(CorsMethod::Post);
    allow_methods.push(CorsMethod::Patch);
    allow_methods.push(CorsMethod::Delete);
    let mut allow_headers: Vec<CorsHeader> = Vec::new();
    allow_headers.push(CorsHeader::ContentType);
    allow_headers.push(CorsHeader::Authorization);
    let p = CorsPolicy { allow_origin, allow_methods, allow_headers };
    assert(p.allow_methods@ =~= seq![CorsMethod::Get, CorsMethod::Post, CorsMethod::Patch, CorsMethod::Delete]);
    assert(p.allow_headers@ =~= seq![CorsHeader::ContentType, CorsHeader::Authorization]);
    Some(p)
}

} // verus!
