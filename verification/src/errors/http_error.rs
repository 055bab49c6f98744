use vstd::prelude::*;
use vstd::string::*;

use crate::errors::auth_errors::ErrorMessage;
use crate::schema::response_schema::Response;
use crate::text::decimal::{decimal, format_u64};

verus! {

/// An error that a request handler answers with: a message and an HTTP status code.
#[derive(Clone, Debug)]
pub struct HttpError {
    pub message: String,
    pub status: u16,
}

/// The status codes that have an answer of their own.
pub open spec fn is_known_status(status: u16) -> bool {
    status == 400 || status == 401 || status == 409 || status == 500
}

/// The HTTP status that an error with `status` is answered with: the status itself where it
/// has an answer of its own, else 500.
pub open spec fn answered_status(status: u16) -> u16 {
    if is_known_status(status) {
        status
    } else {
        500
    }
}

/// The status word of the answer: `fail` for the client errors, `error` for the rest.
pub open spec fn answered_word(status: u16) -> Seq<char> {
    if status == 400 || status == 401 || status == 409 {
        "fail"@
    } else {
        "error"@
    }
}

/// The message of the answer: the error's own message where its status is known, else the
/// general server error message.
pub open spec fn answered_message(e: HttpError) -> Seq<char> {
    if is_known_status(e.status) {
        e.message@
    } else {
        ErrorMessage::ServerError.text()
    }
}

/// What an `HttpError` is answered with: the HTTP status code and the JSON body.
pub struct ErrorReply {
    pub http_status: u16,
    pub body: Response,
}

/// The text that `Display` writes for an error.
pub open spec fn error_text(e: HttpError) -> Seq<char> {
    "HttpError: message: "@ + e.message@ + ", status: "@ + decimal(e.status as nat)
}

impl HttpError {
    /// An error with the given message and status.
    pub fn new(message: String, status: u16) -> (e: Self)
        ensures
            e.message@ == message@,
            e.status == status,
    {
        HttpError { message, status }
    }

    /// An internal server error (500).
    pub fn server_error(message: String) -> (e: Self)
        ensures
            e.message@ == message@,
            e.status == 500,
    {
        HttpError { message, status: 500 }
    }

    /// A bad request (400).
    pub fn bad_request(message: String) -> (e: Self)
        ensures
            e.message@ == message@,
            e.status == 400,
    {
        HttpError { message, status: 400 }
    }

    /// A conflict with a unique constraint (409).
    pub fn unique_constraint_voilation(message: String) -> (e: Self)
        ensures
            e.message@ == message@,
            e.status == 409,
    {
        HttpError { message, status: 409 }
    }

    /// An unauthorized request (401).
    pub fn unauthorized(message: String) -> (e: Self)
        ensures
            e.message@ == message@,
            e.status == 401,
    {
        HttpError { message, status: 401 }
    }

    /// The answer to the error: 400, 401 and 409 with the status word `fail`, 500 with
    /// `error`, each with the error's message; any other status is answered as a 500 with
    /// the general server error message.
    pub fn into_http_response(self) -> (r: ErrorReply)
        ensures
            r.http_status == answered_status(self.status),
            r.body.status@ == answered_word(self.status),
            r.body.message@ == answered_message(self),
    {
        let status = self.status;
        if status == 400 || status == 401 || status == 409 {
            ErrorReply { http_status: status, body: Response { status: "fail", message: self.message } }
        } else if status == 500 {
            ErrorReply { http_status: 500, body: Response { status: "error", message: self.message } }
        } else {
            ErrorReply {
                http_status: 500,
                body: Response { status: "error", message: ErrorMessage::ServerError.to_str() },
            }
        }
    }

    /// The text that `Display` writes: `HttpError: message: {message}, status: {status}`.
    pub fn to_string(&self) -> (s: String)
        ensures
            s@ == error_text(*self),
    {
        let mut s = String::from_str("HttpError: message: ");
        s.append(self.message.as_str());
        s.append(", status: ");
        let digits = format_u64(self.status as u64);
        s.append(digits.as_str());
        s
    }
}

/// Every error is answered with one of the statuses 400, 401, 409 or 500, and the status
/// word is `fail` exactly for 400, 401 and 409.
pub proof fn law_answers_use_known_statuses(e: HttpError)
    ensures
        is_known_status(answered_status(e.status)),
        (answered_word(answered_status(e.status)) == "fail"@) <==> (e.status == 400 || e.status
            == 401 || e.status == 409),
{
    reveal_strlit("fail");
    reveal_strlit("error");
    assert("fail"@.len() != "error"@.len());
}

/// An error made by one of the named constructors is answered with the constructor's status
/// and keeps its message.
pub proof fn law_constructed_errors_keep_their_message(e: HttpError)
    requires
        e.status == 400 || e.status == 401 || e.status == 409 || e.status == 500,
    ensures
        answered_status(e.status) == e.status,
        answered_message(e) == e.message@,
{
}

} // verus!
