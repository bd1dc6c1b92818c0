//! The application's error type and the HTTP answer each error becomes.
//!
//! `NotFound` and `Conflict` carry a hint that tells the frontend which ceremony to
//! switch to. Errors from the authenticator library are answered as a failed
//! authentication, and internal errors collapse to one generic answer, so that no
//! detail of them reaches a client; the detail is only logged.

use vstd::prelude::*;

use crate::text::{json_quote, json_string};

verus! {

/// The ceremony that the client should switch to.
#[derive(Clone, Copy, Debug, PartialEq, Eq, Structural)]
pub enum Hint {
    Register,
    Login,
}

impl Hint {
    /// The hint's wire text.
    pub open spec fn text(self) -> Seq<char> {
        match self {
            Hint::Register => "register"@,
            Hint::Login => "login"@,
        }
    }

    /// The hint's wire text.
    pub fn as_str(&self) -> (r: &'static str)
        ensures
            r@ == self.text(),
    {
        match self {
            Hint::Register => "register",
            Hint::Login => "login",
        }
    }
}

/// Every way a request can fail.
#[derive(Debug)]
pub enum AppError {
    /// No authenticated session, or a wrong bearer token.
    Unauthorized,
    /// The contact-info form is still locked (phase 1).
    PhaseLocked,
    /// The email is unknown; the hint says which ceremony to use instead.
    NotFound(Hint),
    /// The email is already registered; the hint says which ceremony to use instead.
    Conflict(Hint),
    /// The request is malformed; the message is shown to the client.
    BadRequest(String),
    /// The authenticator library refused a ceremony step; the message is only logged.
    Webauthn(String),
    /// The database failed; the message is only logged.
    Db(String),
    /// The session store failed; the message is only logged.
    Session(String),
    /// Any other internal failure; the message is only logged.
    Other(String),
}

/// How loudly an error is logged before it is answered.
#[derive(Clone, Copy, Debug, PartialEq, Eq, Structural)]
pub enum LogLevel {
    Silent,
    Warn,
    Error,
}

/// The HTTP answer for an error: status code and JSON body, and how to log it: the
/// level, a fixed note, and the error's own detail, which goes only to the log.
pub struct ErrorResponse {
    pub status: u16,
    pub body: String,
    pub log: LogLevel,
    pub note: String,
    pub detail: Option<String>,
}

/// `{"error":<msg>}` for a message that is written as it is.
pub open spec fn error_only_body(msg: Seq<char>) -> Seq<char> {
    "{\"error\":"@ + json_string(msg) + "}"@
}

/// `{"action":<hint>,"error":<msg>}`: the keys in the order in which a JSON object
/// map writes them.
pub open spec fn hinted_body(hint: Hint, msg: Seq<char>) -> Seq<char> {
    "{\"action\":"@ + json_string(hint.text()) + ",\"error\":"@ + json_string(msg) + "}"@
}

impl AppError {
    /// The HTTP status code of the answer.
    pub open spec fn status_of(&self) -> u16 {
        match self {
            AppError::Unauthorized => 401,
            AppError::PhaseLocked => 403,
            AppError::NotFound(_) => 404,
            AppError::Conflict(_) => 409,
            AppError::BadRequest(_) => 400,
            AppError::Webauthn(_) => 401,
            AppError::Db(_) => 500,
            AppError::Session(_) => 500,
            AppError::Other(_) => 500,
        }
    }

    /// The JSON body of the answer.
    pub open spec fn body_of(&self) -> Seq<char> {
        match self {
            AppError::Unauthorized => error_only_body("unauthorized"@),
            AppError::PhaseLocked => error_only_body("forbidden"@),
            AppError::NotFound(h) => hinted_body(*h, "not found"@),
            AppError::Conflict(h) => hinted_body(*h, "conflict"@),
            AppError::BadRequest(m) => error_only_body(m@),
            AppError::Webauthn(_) => error_only_body("authentication failed"@),
            AppError::Db(_) => error_only_body("internal error"@),
            AppError::Session(_) => error_only_body("internal error"@),
            AppError::Other(_) => error_only_body("internal error"@),
        }
    }

    /// How loudly the error is logged.
    pub open spec fn log_of(&self) -> LogLevel {
        match self {
            AppError::Webauthn(_) => LogLevel::Warn,
            AppError::Db(_) => LogLevel::Error,
            AppError::Session(_) => LogLevel::Error,
            AppError::Other(_) => LogLevel::Error,
            _ => LogLevel::Silent,
        }
    }

    /// The note logged with the error.
    pub open spec fn note_of(&self) -> Seq<char> {
        match self {
            AppError::Webauthn(_) => "webauthn ceremony failed"@,
            AppError::Db(_) => "database error"@,
            AppError::Session(_) => "session error"@,
            AppError::Other(_) => "internal error"@,
            _ => Seq::empty(),
        }
    }

    /// The detail that only the log sees.
    pub open spec fn detail_of(self) -> Option<String> {
        match self {
            AppError::Webauthn(m) => Some(m),
            AppError::Db(m) => Some(m),
            AppError::Session(m) => Some(m),
            AppError::Other(m) => Some(m),
            _ => None,
        }
    }

    /// The error as an HTTP answer.
    pub fn into_response(self) -> (r: ErrorResponse)
        ensures
            r.status == self.status_of(),
            r.body@ == self.body_of(),
            r.log == self.log_of(),
            r.note@ == self.note_of(),
            r.detail == self.detail_of(),
    {
        match self {
            AppError::Unauthorized => ErrorResponse {
                status: 401,
                body: error_only("unauthorized"),
                log: LogLevel::Silent,
                note: String::new(),
                detail: None,
            },
            AppError::PhaseLocked => ErrorResponse {
                status: 403,
                body: error_only("forbidden"),
                log: LogLevel::Silent,
                note: String::new(),
                detail: None,
            },
            AppError::NotFound(h) => ErrorResponse {
                status: 404,
                body: hinted(h, "not found"),
                log: LogLevel::Silent,
                note: String::new(),
                detail: None,
            },
            AppError::Conflict(h) => ErrorResponse {
                status: 409,
                body: hinted(h, "conflict"),
                log: LogLevel::Silent,
                note: String::new(),
                detail: None,
            },
            AppError::BadRequest(m) => ErrorResponse {
                status: 400,
                body: error_only(m.as_str()),
                log: LogLevel::Silent,
                note: String::new(),
                detail: None,
            },
            AppError::Webauthn(m) => ErrorResponse {
                status: 401,
                body: error_only("authentication failed"),
                log: LogLevel::Warn,
                note: "webauthn ceremony failed".to_owned(),
                detail: Some(m),
            },
            AppError::Db(m) => ErrorResponse {
                status: 500,
                body: error_only("internal error"),
                log: LogLevel::Error,
                note: "database error".to_owned(),
                detail: Some(m),
            },
            AppError::Session(m) => ErrorResponse {
                status: 500,
                body: error_only("internal error"),
                log: LogLevel::Error,
                note: "session error".to_owned(),
                detail: Some(m),
            },
            AppError::Other(m) => ErrorResponse {
                status: 500,
                body: error_only("internal error"),
                log: LogLevel::Error,
                note: "internal error".to_owned(),
                detail: Some(m),
            },
        }
    }
}

/// Failures that are logged are answered without their detail: two of them logged at the
/// same level get the same status and the same body, whatever their messages say.
pub proof fn lemma_logged_errors_hide_detail(a: AppError, b: AppError)
    requires
        a.log_of() != LogLevel::Silent,
        a.log_of() == b.log_of(),
    ensures
        a.status_of() == b.status_of(),
        a.body_of() == b.body_of(),
{
}

fn error_only(msg: &str) -> (r: String)
    ensures
        r@ == error_only_body(msg@),
{
    "{\"error\":".to_owned().concat(json_quote(msg).as_str()).concat("}")
}

fn hinted(h: Hint, msg: &str) -> (r: String)
    ensures
        r@ == hinted_body(h, msg@),
{
    "{\"action\":".to_owned().concat(json_quote(h.as_str()).as_str()).concat(",\"error\":").concat(
        json_quote(msg).as_str(),
    ).concat("}")
}

} // verus!
