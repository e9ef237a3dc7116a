//! The errors that request handlers answer with, and the response body
//! (status and message) that each of them is answered by.

use vstd::prelude::*;
use crate::strings::{
    after_first, before_first, find_char, lemma_first_index_of, lemma_first_index_of_unique, opt_str_view, str_or,
};

verus! {

/// The errors a request handler can fail with.
#[derive(Debug)]
pub enum Errors {
    BadRequest(String),
    InternalError(String),
    Unauthorized,
    NotFound,
    Forbidden,
}

impl Errors {
    pub fn bad_request(message: &str) -> (res: Errors)
        ensures
            res matches Errors::BadRequest(m) && m@ == message@,
    {
        Errors::BadRequest(String::from_str(message))
    }

    pub fn internal_error(message: &str) -> (res: Errors)
        ensures
            res matches Errors::InternalError(m) && m@ == message@,
    {
        Errors::InternalError(String::from_str(message))
    }
}

/// The JSON body of an error response.
#[derive(Debug)]
pub struct ErrorResponse {
    pub message: String,
    pub status: u16,
}

impl ErrorResponse {
    pub fn new(status: u16, message: String) -> (res: Self)
        ensures
            res.status == status,
            res.message == message,
    {
        ErrorResponse { message, status }
    }
}

/// The status code that answers an error.
pub open spec fn error_status(e: Errors) -> u16 {
    match e {
        Errors::BadRequest(_) => 400,
        Errors::InternalError(_) => 500,
        Errors::Unauthorized => 401,
        Errors::NotFound => 404,
        Errors::Forbidden => 403,
    }
}

/// The message that answers an error.
pub open spec fn error_message(e: Errors) -> Seq<char> {
    match e {
        Errors::BadRequest(m) => m@,
        Errors::InternalError(m) => m@,
        Errors::Unauthorized => "Unauthorized"@,
        Errors::NotFound => "Not found"@,
        Errors::Forbidden => "Forbidden"@,
    }
}

/// The media subtype named first in an `Accept` header: the part between the
/// first `/` and the next `/` of the header's first comma-separated entry, or
/// `None` when that entry holds no `/`. An absent header stands for
/// `application/json`.
pub open spec fn accepted_subtype_of(accept: Seq<char>) -> Option<Seq<char>> {
    match after_first(before_first(accept, ','), '/') {
        Some(rest) => Some(before_first(rest, '/')),
        None => None,
    }
}

/// See `accepted_subtype_of`; `None` for the header stands for a missing or
/// unreadable header, which is read as `application/json`.
pub fn accepted_subtype(accept: Option<&str>) -> (res: Option<String>)
    ensures
        opt_str_view(res) == accepted_subtype_of(str_or(accept, "application/json"@)),
        accept is None ==> opt_str_view(res) == Some("json"@),
{
    proof {
        lemma_absent_accept_header_is_json();
    }
    let header: &str = match accept {
        Some(h) => h,
        None => "application/json",
    };
    let comma = find_char(header, ',');
    let first = header.substring_char(0, comma);
    assert(first@ == before_first(header@, ','));
    let slash = find_char(first, '/');
    proof {
        lemma_first_index_of(first@, '/');
    }
    if slash < first.unicode_len() {
        let rest = first.substring_char(slash + 1, first.unicode_len());
        assert(rest@ == first@.skip(slash + 1));
        let end = find_char(rest, '/');
        let sub = rest.substring_char(0, end);
        Some(String::from_str(sub))
    } else {
        None
    }
}

impl Errors {
    /// The response body that answers this error, or `None` when the request's
    /// `Accept` header names no media subtype (which the server refuses as a
    /// header parse error).
    pub fn respond_to(self, accept: Option<&str>) -> (res: Option<ErrorResponse>)
        ensures
            res is None <==> accepted_subtype_of(str_or(accept, "application/json"@)) is None,
            res matches Some(r) ==> r.status == error_status(self) && r.message@ == error_message(self),
            accept is None ==> res is Some,
            res matches Some(r) ==> {
                &&& self is BadRequest ==> r.status == 400
                &&& self is InternalError ==> r.status == 500
                &&& self is Unauthorized ==> r.status == 401
                &&& self is NotFound ==> r.status == 404
                &&& self is Forbidden ==> r.status == 403
            },
            res matches Some(r) ==> (self matches Errors::BadRequest(m) ==> r.message == m),
            res matches Some(r) ==> (self matches Errors::InternalError(m) ==> r.message == m),
    {
        let ghost e = self;
        let body = match self {
            Errors::BadRequest(message) => ErrorResponse::new(400, message),
            Errors::InternalError(message) => ErrorResponse::new(500, message),
            Errors::Unauthorized => ErrorResponse::new(401, String::from_str("Unauthorized")),
            Errors::NotFound => ErrorResponse::new(404, String::from_str("Not found")),
            Errors::Forbidden => ErrorResponse::new(403, String::from_str("Forbidden")),
        };
        let accepted = accepted_subtype(accept);
        match accepted {
            Some(_) => Some(body),
            None => None,
        }
    }
}

/// A request without an `Accept` header is read as accepting JSON, so every
/// error is answered when the header is absent.
pub proof fn lemma_absent_accept_header_is_json()
    ensures
        accepted_subtype_of("application/json"@) == Some("json"@),
{
    reveal_strlit("application/json");
    reveal_strlit("json");
    let s = "application/json"@;
    lemma_first_index_of_unique(s, ',', s.len() as int);
    let first = before_first(s, ',');
    assert(first =~= s);
    lemma_first_index_of_unique(first, '/', 11);
    let rest = first.skip(12);
    lemma_first_index_of_unique(rest, '/', rest.len() as int);
    assert(before_first(rest, '/') =~= "json"@);
}

/// The status that answers an error is decided by its kind alone, whatever
/// message it carries: `400` for a bad request, `500` for an internal error,
/// `401` for an unauthorized request, `404` for something not found and `403`
/// for a forbidden request; and a bad request or internal error is answered
/// with its own message.
pub proof fn lemma_status_by_kind(e: Errors)
    ensures
        e is BadRequest ==> error_status(e) == 400,
        e is InternalError ==> error_status(e) == 500,
        e is Unauthorized ==> error_status(e) == 401,
        e is NotFound ==> error_status(e) == 404,
        e is Forbidden ==> error_status(e) == 403,
        e matches Errors::BadRequest(m) ==> error_message(e) == m@,
        e matches Errors::InternalError(m) ==> error_message(e) == m@,
{
}

/// Two bad requests (or two internal errors) are answered with the same
/// status, whatever their messages.
pub proof fn lemma_status_ignores_message(m1: String, m2: String)
    ensures
        error_status(Errors::BadRequest(m1)) == error_status(Errors::BadRequest(m2)),
        error_status(Errors::InternalError(m1)) == error_status(Errors::InternalError(m2)),
        error_status(Errors::BadRequest(m1)) != error_status(Errors::InternalError(m2)),
{
}

} // verus!
