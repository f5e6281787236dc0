//! Errors of the ingestion engine, and which of them are worth retrying.

use vstd::prelude::*;
use crate::text::{push_int, spec_int_text};

verus! {

/// What went wrong in an HTTP exchange, as the HTTP client classifies its failures.
#[derive(Clone, Copy, Debug, PartialEq, Eq, Structural)]
pub enum HttpErrorKind {
    /// The request could not be built.
    Builder,
    /// Sending the request failed.
    Request,
    /// Too many redirects, or a redirect loop.
    Redirect,
    /// The server answered with an error status.
    Status,
    /// Reading the response body failed.
    Body,
    /// The response body could not be decoded.
    Decode,
    /// No connection could be made.
    Connect,
    /// The exchange timed out.
    Timeout,
    /// Any other failure.
    Other,
}

/// An HTTP client failure, held as plain values: its kind, the response status where there was
/// one, and the client's own description of it.
#[derive(Clone, Debug, PartialEq, Eq)]
pub struct HttpError {
    pub kind: HttpErrorKind,
    pub status: Option<u16>,
    pub message: String,
}

/// Errors of the ingestion engine.
#[derive(Clone, Debug, PartialEq, Eq)]
pub enum CoreError {
    /// Invalid or missing configuration.
    Config(String),
    /// A QuestDB operation failed.
    QuestDb(String),
    /// The HTTP client failed.
    Http(HttpError),
    /// An input was rejected.
    Validation(String),
    /// A value could not be (de)serialised; the serialiser's description of the failure.
    Serialization(String),
    /// The external API failed.
    ExternalApi(String),
    /// The external API answered with a status other than success.
    ExternalApiStatus { status: u16, message: String },
}

/// Statuses that are transient: too many requests, or a server error.
pub open spec fn is_retryable_status(status: int) -> bool {
    status == 429 || (500 <= status && status <= 599)
}

/// Kinds of HTTP failure that come from the network rather than from the exchange's content.
pub open spec fn is_network_failure(kind: HttpErrorKind) -> bool {
    match kind {
        HttpErrorKind::Connect | HttpErrorKind::Timeout | HttpErrorKind::Request
        | HttpErrorKind::Body => true,
        _ => false,
    }
}

/// The most characters of a response body that an error message keeps.
pub const API_ERROR_BODY_CHARS: usize = 240;

/// The message of an error answer from the external API: the first characters of its body, or
/// a note that the body was empty.
pub open spec fn api_error_message(body: Seq<char>) -> Seq<char> {
    if body.len() == 0 {
        "empty response body"@
    } else if body.len() <= API_ERROR_BODY_CHARS {
        body
    } else {
        body.take(API_ERROR_BODY_CHARS as int)
    }
}

impl CoreError {
    /// Transient failures: the network, `429`, or a `5xx` status. Everything else fails fast.
    pub open spec fn retryable(&self) -> bool {
        match self {
            CoreError::Http(e) => is_network_failure(e.kind) || (e.status matches Some(s)
                && is_retryable_status(s as int)),
            CoreError::ExternalApiStatus { status, .. } => is_retryable_status(*status as int),
            _ => false,
        }
    }

    /// The error's text, as it is displayed.
    pub open spec fn text(&self) -> Seq<char> {
        match self {
            CoreError::Config(m) => "Configuration error: "@ + m@,
            CoreError::QuestDb(m) => "QuestDB operation failed: "@ + m@,
            CoreError::Http(e) => "HTTP client error: "@ + e.message@,
            CoreError::Validation(m) => "Validation error: "@ + m@,
            CoreError::Serialization(m) => "Serialization error: "@ + m@,
            CoreError::ExternalApi(m) => "External API error: "@ + m@,
            CoreError::ExternalApiStatus { status, message } => "External API error: status "@
                + spec_int_text(*status as int) + ": "@ + message@,
        }
    }

    /// Whether retrying the failed operation may succeed.
    pub fn is_retryable(&self) -> (res: bool)
        ensures
            res == self.retryable(),
    {
        match self {
            CoreError::Http(e) => {
                let network = match e.kind {
                    HttpErrorKind::Connect | HttpErrorKind::Timeout | HttpErrorKind::Request
                    | HttpErrorKind::Body => true,
                    _ => false,
                };
                network || match e.status {
                    Some(s) => s == 429 || (500 <= s && s <= 599),
                    None => false,
                }
            },
            CoreError::ExternalApiStatus { status, .. } => *status == 429 || (500 <= *status
                && *status <= 599),
            _ => false,
        }
    }

    /// The error's text, as it is displayed.
    pub fn message(&self) -> (res: String)
        ensures
            res@ == self.text(),
    {
        match self {
            CoreError::Config(m) => String::from_str("Configuration error: ").concat(m.as_str()),
            CoreError::QuestDb(m) => String::from_str("QuestDB operation failed: ").concat(
                m.as_str(),
            ),
            CoreError::Http(e) => String::from_str("HTTP client error: ").concat(
                e.message.as_str(),
            ),
            CoreError::Validation(m) => String::from_str("Validation error: ").concat(m.as_str()),
            CoreError::Serialization(m) => String::from_str("Serialization error: ").concat(
                m.as_str(),
            ),
            CoreError::ExternalApi(m) => String::from_str("External API error: ").concat(
                m.as_str(),
            ),
            CoreError::ExternalApiStatus { status, message } => {
                let mut out = String::from_str("External API error: status ");
                push_int(&mut out, *status as i64);
                out.append(": ");
                out.append(message.as_str());
                out
            },
        }
    }

    /// The error for an answer of the external API whose status is not a success.
    pub fn api_status(status: u16, body: &str) -> (res: CoreError)
        ensures
            res == (CoreError::ExternalApiStatus { status, message: res->message }),
            res->message@ == api_error_message(body@),
    {
        let n = body.unicode_len();
        let message = if n == 0 {
            String::from_str("empty response body")
        } else if n <= API_ERROR_BODY_CHARS {
            body.to_owned()
        } else {
            body.substring_char(0, API_ERROR_BODY_CHARS).to_owned()
        };
        CoreError::ExternalApiStatus { status, message }
    }

    /// The error for a connection to QuestDB that could not be made.
    pub fn tcp_connect_failed(detail: &str) -> (res: CoreError)
        ensures
            res is QuestDb,
            res->QuestDb_0@ == "TCP connection failed: "@ + detail@,
    {
        CoreError::QuestDb(String::from_str("TCP connection failed: ").concat(detail))
    }

    /// The error for a write to QuestDB that failed.
    pub fn tcp_write_failed(detail: &str) -> (res: CoreError)
        ensures
            res is QuestDb,
            res->QuestDb_0@ == "TCP write failed: "@ + detail@,
    {
        CoreError::QuestDb(String::from_str("TCP write failed: ").concat(detail))
    }
}

/// Law: answers of the external API are retried exactly when they are transient, `429` or a
/// `5xx`; a client error such as `400`, `401`, `403` or `404` fails at once.
pub proof fn law_api_status_retry_policy(status: u16, message: String)
    ensures
        (CoreError::ExternalApiStatus { status, message }).retryable() <==> (status == 429 || (500
            <= status && status <= 599)),
        status == 400 || status == 401 || status == 403 || status == 404 ==> !(
        CoreError::ExternalApiStatus { status, message }).retryable(),
{
}

/// Law: a failure of the HTTP exchange itself (no connection, a timeout, a request or body
/// that could not be sent or read) is retried whatever status came with it, while a failure to
/// decode a response is retried only when its status is transient.
pub proof fn law_network_failures_are_retried(e: HttpError)
    ensures
        is_network_failure(e.kind) ==> CoreError::Http(e).retryable(),
        e.kind == HttpErrorKind::Decode ==> (CoreError::Http(e).retryable() <==> (e.status matches Some(s)
            && is_retryable_status(s as int))),
{
}

} // verus!
