//! Errors and how they are answered: each variant has one HTTP status, one
//! code and one message, and what is private in it stays out of the answer.

use vstd::prelude::*;
use vstd::string::*;

use crate::text;
use crate::text::{decimal_text, owned};

verus! {

/// What can go wrong in a request.
#[derive(Clone, Debug)]
pub enum AppError {
    NotFound { code: &'static str, message: String },
    Conflict { code: &'static str, message: String },
    BadRequest { code: &'static str, message: String, field: Option<String> },
    PayloadTooLarge { code: &'static str, message: String },
    Unprocessable { code: &'static str, message: String },
    /// `details` is a JSON text that is kept for the caller's own use.
    UnprocessableDetails { code: &'static str, message: String, details: String },
    Gone { code: &'static str, message: String },
    ServiceUnavailable { code: &'static str, message: String },
    QuotaExceeded { code: &'static str, message: String, limit: u64 },
    RateLimited { scope: String, retry_after_secs: u64 },
    Unauthorized,
    SessionRequired,
    Forbidden,
    ForbiddenCoded { code: &'static str, message: String },
    /// `log` is for the error log alone.
    Internal { code: &'static str, log: String },
    Other(String),
    Config(String),
    Io(String),
    BindAddr { addr: String, source: String },
}

/// The part of an answer that only a rate-limited request gets.
#[derive(Clone, Debug)]
pub struct RateDetails {
    pub scope: String,
    pub retry_after_secs: u64,
}

/// An error as it is answered: the status, and the members of the `error`
/// object in the body.
#[derive(Clone, Debug)]
pub struct ErrorReply {
    pub status: u16,
    pub code: &'static str,
    pub message: String,
    pub details: Option<RateDetails>,
}

/// An error on its way to becoming an answer.
#[derive(Clone, Debug)]
pub struct ApiError(pub AppError);

/// The status that `e` is answered with.
pub open spec fn status_of(e: AppError) -> u16 {
    match e {
        AppError::NotFound { .. } => 404,
        AppError::Conflict { .. } => 409,
        AppError::BadRequest { .. } => 400,
        AppError::PayloadTooLarge { .. } => 413,
        AppError::Unprocessable { .. } => 422,
        AppError::UnprocessableDetails { .. } => 422,
        AppError::Gone { .. } => 410,
        AppError::ServiceUnavailable { .. } => 503,
        AppError::QuotaExceeded { .. } => 422,
        AppError::RateLimited { .. } => 429,
        AppError::Unauthorized => 401,
        AppError::SessionRequired => 401,
        AppError::Forbidden => 403,
        AppError::ForbiddenCoded { .. } => 403,
        AppError::Internal { .. } => 500,
        AppError::Other(_) => 500,
        AppError::Config(_) => 500,
        AppError::Io(_) => 500,
        AppError::BindAddr { .. } => 500,
    }
}

/// The code that `e` is answered with.
pub open spec fn code_of(e: AppError) -> Seq<char> {
    match e {
        AppError::NotFound { code, .. } => code@,
        AppError::Conflict { code, .. } => code@,
        AppError::BadRequest { code, .. } => code@,
        AppError::PayloadTooLarge { code, .. } => code@,
        AppError::Unprocessable { code, .. } => code@,
        AppError::UnprocessableDetails { code, .. } => code@,
        AppError::Gone { code, .. } => code@,
        AppError::ServiceUnavailable { code, .. } => code@,
        AppError::QuotaExceeded { code, .. } => code@,
        AppError::RateLimited { .. } => "RATE_LIMITED"@,
        AppError::Unauthorized => "UNAUTHORIZED"@,
        AppError::SessionRequired => "SESSION_REQUIRED"@,
        AppError::Forbidden => "FORBIDDEN"@,
        AppError::ForbiddenCoded { code, .. } => code@,
        AppError::Internal { code, .. } => code@,
        AppError::Other(_) => "INTERNAL"@,
        AppError::Config(_) => "INTERNAL"@,
        AppError::Io(_) => "INTERNAL"@,
        AppError::BindAddr { .. } => "INTERNAL"@,
    }
}

/// The message that `e` is answered with.
pub open spec fn message_of(e: AppError) -> Seq<char> {
    match e {
        AppError::NotFound { message, .. } => message@,
        AppError::Conflict { message, .. } => message@,
        AppError::BadRequest { message, .. } => message@,
        AppError::PayloadTooLarge { message, .. } => message@,
        AppError::Unprocessable { message, .. } => message@,
        AppError::UnprocessableDetails { message, .. } => message@,
        AppError::Gone { message, .. } => message@,
        AppError::ServiceUnavailable { message, .. } => message@,
        AppError::QuotaExceeded { message, .. } => message@,
        AppError::RateLimited { scope, .. } => "rate limited on "@ + scope@,
        AppError::Unauthorized => "authentication required"@,
        AppError::SessionRequired => "browser session required"@,
        AppError::Forbidden => "access denied"@,
        AppError::ForbiddenCoded { message, .. } => message@,
        AppError::Internal { .. } => "internal error"@,
        AppError::Other(_) => "internal error"@,
        AppError::Config(_) => "internal error"@,
        AppError::Io(_) => "internal error"@,
        AppError::BindAddr { .. } => "internal error"@,
    }
}

/// Whether `e` carries text for the error log that no answer may show.
pub open spec fn is_private(e: AppError) -> bool {
    e is Internal || e is Other || e is Config || e is Io || e is BindAddr
}

impl ErrorReply {
    /// Whether this is the answer to `e`.
    pub open spec fn answers(&self, e: AppError) -> bool {
        &&& self.status == status_of(e)
        &&& self.code@ == code_of(e)
        &&& self.message@ == message_of(e)
        &&& match e {
            AppError::RateLimited { scope, retry_after_secs } => {
                &&& self.details is Some
                &&& self.details->0.scope@ == scope@
                &&& self.details->0.retry_after_secs == retry_after_secs
            },
            _ => self.details is None,
        }
    }
}

/// Builds an answer with no details.
fn plain_reply(status: u16, code: &'static str, message: String) -> (r: ErrorReply)
    ensures
        r.status == status,
        r.code@ == code@,
        r.message@ == message@,
        r.details is None,
{
    ErrorReply { status, code, message, details: None }
}

impl ApiError {
    /// The answer to this error.
    pub fn into_response(self) -> (r: ErrorReply)
        ensures
            r.answers(self.0),
    {
        match self.0 {
            AppError::NotFound { code, message } => plain_reply(404, code, message),
            AppError::Conflict { code, message } => plain_reply(409, code, message),
            AppError::BadRequest { code, message, field: _ } => plain_reply(400, code, message),
            AppError::PayloadTooLarge { code, message } => plain_reply(413, code, message),
            AppError::Unprocessable { code, message } => plain_reply(422, code, message),
            AppError::UnprocessableDetails { code, message, details: _ } => plain_reply(
                422,
                code,
                message,
            ),
            AppError::Gone { code, message } => plain_reply(410, code, message),
            AppError::ServiceUnavailable { code, message } => plain_reply(503, code, message),
            AppError::QuotaExceeded { code, message, limit: _ } => plain_reply(422, code, message),
            AppError::RateLimited { scope, retry_after_secs } => {
                let mut message = owned("rate limited on ");
                message.append(scope.as_str());
                ErrorReply {
                    status: 429,
                    code: "RATE_LIMITED",
                    message,
                    details: Some(RateDetails { scope, retry_after_secs }),
                }
            },
            AppError::Unauthorized => plain_reply(
                401,
                "UNAUTHORIZED",
                owned("authentication required"),
            ),
            AppError::SessionRequired => plain_reply(
                401,
                "SESSION_REQUIRED",
                owned("browser session required"),
            ),
            AppError::Forbidden => plain_reply(403, "FORBIDDEN", owned("access denied")),
            AppError::ForbiddenCoded { code, message } => plain_reply(403, code, message),
            AppError::Internal { code, log: _ } => plain_reply(500, code, owned("internal error")),
            AppError::Other(_) => plain_reply(500, "INTERNAL", owned("internal error")),
            AppError::Config(_) => plain_reply(500, "INTERNAL", owned("internal error")),
            AppError::Io(_) => plain_reply(500, "INTERNAL", owned("internal error")),
            AppError::BindAddr { addr: _, source: _ } => plain_reply(
                500,
                "INTERNAL",
                owned("internal error"),
            ),
        }
    }

    /// The error for a request that middleware turned away with `status`.
    pub fn from_rejection(status: u16, message: String) -> (r: ApiError)
        ensures
            status == 401 ==> r.0 is Unauthorized,
            status == 403 ==> is_forbidden(r.0, "FORBIDDEN"@, message@),
            status != 401 && status != 403 ==> is_internal(
                r.0,
                "HTTP_MIDDLEWARE"@,
                text::decimal(status as nat) + ": "@ + message@,
            ),
    {
        if status == 401 {
            ApiError(AppError::Unauthorized)
        } else if status == 403 {
            ApiError(AppError::ForbiddenCoded { code: "FORBIDDEN", message })
        } else {
            let mut log = decimal_text(status as u64);
            log.append(": ");
            log.append(message.as_str());
            ApiError(AppError::Internal { code: "HTTP_MIDDLEWARE", log })
        }
    }
}

/// `e` is a missing thing, with this code and message.
pub open spec fn is_not_found(e: AppError, code: Seq<char>, message: Seq<char>) -> bool {
    e matches AppError::NotFound { code: c, message: m } && c@ == code && m@ == message
}

/// `e` is a conflict, with this code and message.
pub open spec fn is_conflict(e: AppError, code: Seq<char>, message: Seq<char>) -> bool {
    e matches AppError::Conflict { code: c, message: m } && c@ == code && m@ == message
}

/// `e` is a bad request that names no field, with this code and message.
pub open spec fn is_bad_request(e: AppError, code: Seq<char>, message: Seq<char>) -> bool {
    e matches AppError::BadRequest { code: c, message: m, field: f } && c@ == code && m@ == message
        && f is None
}

/// `e` is a payload that is too large, with this code and message.
pub open spec fn is_too_large(e: AppError, code: Seq<char>, message: Seq<char>) -> bool {
    e matches AppError::PayloadTooLarge { code: c, message: m } && c@ == code && m@ == message
}

/// `e` is a refusal, with this code and message.
pub open spec fn is_forbidden(e: AppError, code: Seq<char>, message: Seq<char>) -> bool {
    e matches AppError::ForbiddenCoded { code: c, message: m } && c@ == code && m@ == message
}

/// `e` is a fault of the server, with this code and this text for the log.
pub open spec fn is_internal(e: AppError, code: Seq<char>, log: Seq<char>) -> bool {
    e matches AppError::Internal { code: c, log: l } && c@ == code && l@ == log
}

/// A missing thing.
pub fn not_found(code: &'static str, message: String) -> (e: AppError)
    ensures
        is_not_found(e, code@, message@),
{
    AppError::NotFound { code, message }
}

/// A conflict.
pub fn conflict(code: &'static str, message: String) -> (e: AppError)
    ensures
        is_conflict(e, code@, message@),
{
    AppError::Conflict { code, message }
}

/// A bad request that names no field.
pub fn bad_request(code: &'static str, message: String) -> (e: AppError)
    ensures
        is_bad_request(e, code@, message@),
{
    AppError::BadRequest { code, message, field: None }
}

/// A payload that is too large.
pub fn payload_too_large(code: &'static str, message: String) -> (e: AppError)
    ensures
        is_too_large(e, code@, message@),
{
    AppError::PayloadTooLarge { code, message }
}

/// A refusal.
pub fn forbidden_code(code: &'static str, message: String) -> (e: AppError)
    ensures
        is_forbidden(e, code@, message@),
{
    AppError::ForbiddenCoded { code, message }
}

/// Errors that carry private text are answered alike whatever that text is: two
/// of them with one code get one answer.
pub proof fn law_private_text_is_not_answered(a: AppError, b: AppError)
    requires
        is_private(a),
        is_private(b),
        code_of(a) == code_of(b),
    ensures
        status_of(a) == status_of(b) == 500,
        message_of(a) == message_of(b),
        message_of(a) == "internal error"@,
{
}

/// Every error is answered with a status of the 4xx or 5xx range.
pub proof fn law_errors_are_answered_as_errors(e: AppError)
    ensures
        400 <= status_of(e) <= 599,
        status_of(e) == 500 <==> is_private(e),
{
}

} // verus!
