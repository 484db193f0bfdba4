//! What the database answers, as the request logic sees it.
use vstd::prelude::*;

verus! {

/// The kinds of database failure that the request logic tells apart.
pub enum DbErrorKind {
    /// No row matched a query that expects one.
    NotFound,
    /// An insert broke a unique constraint.
    UniqueViolation,
    /// Any other failure.
    Other,
}

/// A failed database call: its kind, and the `Debug` rendering of the
/// underlying error.
pub struct DbError {
    pub kind: DbErrorKind,
    pub detail: String,
}

} // verus!
