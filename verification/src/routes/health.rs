//! The /health API: liveness and readiness.
use vstd::prelude::*;

verus! {

/// The body that answers a health check: the JSON object `{"status":"ok"}`.
pub open spec fn health_body() -> Seq<char> {
    "{\"status\":\"ok\"}"@
}

/// Liveness / readiness check: the JSON body that the server answers with
/// status 200.
pub fn health() -> (body: String)
    ensures
        body@ == health_body(),
{
    "{\"status\":\"ok\"}".to_owned()
}

} // verus!
