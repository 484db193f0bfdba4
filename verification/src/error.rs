//! The application's error: an HTTP status and a message, answered as the
//! JSON object `{"error": message}`.
use vstd::prelude::*;

use crate::text::{json_string, json_string_literal};

verus! {

/// `200 OK`.
pub const STATUS_OK: u16 = 200;

/// `201 Created`.
pub const STATUS_CREATED: u16 = 201;

/// `404 Not Found`.
pub const STATUS_NOT_FOUND: u16 = 404;

/// `409 Conflict`.
pub const STATUS_CONFLICT: u16 = 409;

/// `500 Internal Server Error`.
pub const STATUS_INTERNAL_SERVER_ERROR: u16 = 500;

/// The body that answers an error with the message `message`: the JSON object
/// `{"error": message}`, written compactly.
pub open spec fn error_body_text(message: Seq<char>) -> Seq<char> {
    "{\"error\":"@ + json_string_literal(message) + "}"@
}

/// Unified application error that produces JSON error responses.
pub struct AppError {
    status: u16,
    message: String,
}

impl AppError {
    /// The HTTP status of this error.
    pub closed spec fn status_code(&self) -> u16 {
        self.status
    }

    /// The message of this error.
    pub closed spec fn message_text(&self) -> Seq<char> {
        self.message@
    }

    /// An internal server error (500). `detail` is the `Debug` rendering of the
    /// error that caused it, and becomes the message.
    pub fn internal(detail: String) -> (e: AppError)
        ensures
            e.status_code() == STATUS_INTERNAL_SERVER_ERROR,
            e.message_text() == detail@,
    {
        AppError { status: STATUS_INTERNAL_SERVER_ERROR, message: detail }
    }

    /// A not-found error (404) with the message `msg`.
    pub fn not_found(msg: &str) -> (e: AppError)
        ensures
            e.status_code() == STATUS_NOT_FOUND,
            e.message_text() == msg@,
    {
        AppError { status: STATUS_NOT_FOUND, message: msg.to_owned() }
    }

    /// A conflict error (409) with the message `msg`.
    pub fn conflict(msg: &str) -> (e: AppError)
        ensures
            e.status_code() == STATUS_CONFLICT,
            e.message_text() == msg@,
    {
        AppError { status: STATUS_CONFLICT, message: msg.to_owned() }
    }

    /// The HTTP status of this error.
    pub fn status(&self) -> (s: u16)
        ensures
            s == self.status_code(),
    {
        self.status
    }

    /// The message of this error.
    pub fn message(&self) -> (m: &str)
        ensures
            m@ == self.message_text(),
    {
        self.message.as_str()
    }

    /// The JSON body that answers this error: `{"error": message}`.
    pub fn body(&self) -> (b: String)
        ensures
            b@ == error_body_text(self.message_text()),
    {
        let quoted = json_string(self.message.as_str());
        let mut b = String::new();
        b.append("{\"error\":");
        b.append(quoted.as_str());
        b.append("}");
        b
    }
}

} // verus!

verus! {

/// Whether JSON writes `c` as itself inside a string literal.
pub open spec fn json_plain_char(c: char) -> bool {
    c != '"' && c != '\\' && c as u32 >= 0x20
}

/// JSON writes a text without quotes, backslashes and control characters as
/// itself.
pub proof fn lemma_json_escape_plain(s: Seq<char>)
    requires
        forall|i: int| 0 <= i < s.len() ==> json_plain_char(#[trigger] s[i]),
    ensures
        crate::text::json_escape(s) == s,
    decreases s.len(),
{
    if s.len() > 0 {
        lemma_json_escape_plain(s.drop_last());
        assert(s.drop_last().push(s.last()) =~= s);
    }
}

/// The body of an error whose message holds no quote, backslash or control
/// character is the message quoted inside `{"error":...}`.
pub proof fn lemma_plain_error_body(message: Seq<char>)
    requires
        forall|i: int| 0 <= i < message.len() ==> json_plain_char(#[trigger] message[i]),
    ensures
        error_body_text(message) == "{\"error\":\""@ + message + "\"}"@,
{
    lemma_json_escape_plain(message);
    reveal_strlit("{\"error\":\"");
    reveal_strlit("{\"error\":");
    reveal_strlit("\"}");
    reveal_strlit("}");
    assert(error_body_text(message) =~= "{\"error\":\""@ + message + "\"}"@);
}

} // verus!
