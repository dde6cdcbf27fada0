//! The library's single error type: its predicates and accessors, its
//! human-readable rendering, and the mapping from an HTTP status to the most
//! specific variant.

use std::time::Duration;
use vstd::prelude::*;
use vstd::string::*;

use crate::duration::{duration_debug, duration_debug_text, duration_nanos};
use crate::text::{decimal, push_decimal};

pub mod error_codes;

verus! {

/// Every fallible operation in this crate returns `Result<T, Error>`.
///
/// The variants split into two families:
///
/// - **Reserved (SDK-internal)** — `InvalidOptions`, `Connection`, `Timeout`,
///   `Aborted`, `Download`, `Internal`. Carry no API `code`; the wire-level
///   constant returned by [`Error::code`] is fixed per variant.
/// - **API status** — `BadRequest`, `Auth`, `PermissionDenied`, `NotFound`,
///   `Gone`, `RateLimited`, `Api`. Carry the HTTP `status`, the wire `code`,
///   the human `message` and the `request_id` (when the server sent one).
///
/// The underlying transport failure of `Connection` and `Download` is kept
/// as its rendered description (`source`).
#[derive(Debug)]
#[non_exhaustive]
#[allow(inconsistent_fields)]
pub enum Error {
    /// Constructor / builder validation failed (e.g., empty `api_key`).
    InvalidOptions {
        /// Human-readable explanation of what was invalid.
        message: String,
    },
    /// Underlying network failure — DNS, connection refused, TLS, decode, etc.
    Connection {
        /// Human-readable summary of the failure.
        message: String,
        /// Description of the underlying transport error.
        source: String,
    },
    /// Request deadline exceeded.
    Timeout {
        /// The deadline that was hit.
        timeout: Duration,
    },
    /// The in-flight request was dropped or externally cancelled. Never retried.
    Aborted,
    /// Presigned-URL download (the PDF second-hop fetch) failed.
    Download {
        /// Human-readable summary.
        message: String,
        /// The storage response status, if the request reached it.
        status: Option<u16>,
        /// Description of the underlying transport error, if any.
        source: Option<String>,
    },
    /// SDK-side parse / decode failure, or other "shouldn't happen" conditions.
    Internal {
        /// Human-readable summary.
        message: String,
        /// HTTP status from the upstream response, if one was received.
        status: Option<u16>,
    },
    /// 4xx validation / shape error returned by the API (400 or 422).
    BadRequest {
        /// HTTP status code.
        status: u16,
        /// Wire-level error `code` field.
        code: String,
        /// Human-readable error message.
        message: String,
        /// `X-Request-Id` header from the response, if present.
        request_id: Option<String>,
    },
    /// 401 — authentication required or invalid credentials.
    Auth {
        /// HTTP status code.
        status: u16,
        /// Wire-level error `code` field.
        code: String,
        /// Human-readable error message.
        message: String,
        /// `X-Request-Id` header from the response, if present.
        request_id: Option<String>,
    },
    /// 403 — the credentials are valid but lack permission for the action.
    PermissionDenied {
        /// HTTP status code.
        status: u16,
        /// Wire-level error `code` field.
        code: String,
        /// Human-readable error message.
        message: String,
        /// `X-Request-Id` header from the response, if present.
        request_id: Option<String>,
    },
    /// 404 — the requested resource doesn't exist.
    NotFound {
        /// HTTP status code.
        status: u16,
        /// Wire-level error `code` field.
        code: String,
        /// Human-readable error message.
        message: String,
        /// `X-Request-Id` header from the response, if present.
        request_id: Option<String>,
    },
    /// 410 — the resource was deleted / no longer available.
    Gone {
        /// HTTP status code.
        status: u16,
        /// Wire-level error `code` field.
        code: String,
        /// Human-readable error message.
        message: String,
        /// `X-Request-Id` header from the response, if present.
        request_id: Option<String>,
    },
    /// 429 — caller exceeded the rate limit.
    RateLimited {
        /// HTTP status code.
        status: u16,
        /// Wire-level error `code` field.
        code: String,
        /// Human-readable error message.
        message: String,
        /// `X-Request-Id` header from the response, if present.
        request_id: Option<String>,
    },
    /// Catch-all for any 4xx or 5xx that doesn't match a more specific variant.
    Api {
        /// HTTP status code.
        status: u16,
        /// Wire-level error `code` field.
        code: String,
        /// Human-readable error message.
        message: String,
        /// `X-Request-Id` header from the response, if present.
        request_id: Option<String>,
    },
}

/// The view of an optional string.
pub open spec fn opt_view(o: Option<String>) -> Option<Seq<char>> {
    match o {
        Some(s) => Some(s@),
        None => None,
    }
}

impl Error {
    /// Whether this is one of the variants built from an API response status.
    pub open spec fn is_api_status_variant(self) -> bool {
        ||| self is BadRequest
        ||| self is Auth
        ||| self is PermissionDenied
        ||| self is NotFound
        ||| self is Gone
        ||| self is RateLimited
        ||| self is Api
    }

    /// The HTTP status the error carries, if any.
    pub open spec fn spec_status(self) -> Option<u16> {
        match self {
            Error::BadRequest { status, .. } => Some(status),
            Error::Auth { status, .. } => Some(status),
            Error::PermissionDenied { status, .. } => Some(status),
            Error::NotFound { status, .. } => Some(status),
            Error::Gone { status, .. } => Some(status),
            Error::RateLimited { status, .. } => Some(status),
            Error::Api { status, .. } => Some(status),
            Error::Internal { status, .. } => status,
            Error::Download { status, .. } => status,
            _ => None,
        }
    }

    /// The wire-level code: fixed per reserved variant, the server's `code`
    /// for API variants.
    pub open spec fn spec_code(self) -> Seq<char> {
        match self {
            Error::InvalidOptions { .. } => "invalid_options"@,
            Error::Connection { .. } => "network_error"@,
            Error::Timeout { .. } => "timeout"@,
            Error::Aborted => "aborted"@,
            Error::Download { .. } => "DOWNLOAD_FAILED"@,
            Error::Internal { .. } => "INTERNAL_ERROR"@,
            Error::BadRequest { code, .. } => code@,
            Error::Auth { code, .. } => code@,
            Error::PermissionDenied { code, .. } => code@,
            Error::NotFound { code, .. } => code@,
            Error::Gone { code, .. } => code@,
            Error::RateLimited { code, .. } => code@,
            Error::Api { code, .. } => code@,
        }
    }

    /// The server's request id, for API variants that received one.
    pub open spec fn spec_request_id(self) -> Option<Seq<char>> {
        match self {
            Error::BadRequest { request_id, .. } => opt_view(request_id),
            Error::Auth { request_id, .. } => opt_view(request_id),
            Error::PermissionDenied { request_id, .. } => opt_view(request_id),
            Error::NotFound { request_id, .. } => opt_view(request_id),
            Error::Gone { request_id, .. } => opt_view(request_id),
            Error::RateLimited { request_id, .. } => opt_view(request_id),
            Error::Api { request_id, .. } => opt_view(request_id),
            _ => None,
        }
    }

    /// The human-readable message, for the variants that carry one.
    pub open spec fn spec_message(self) -> Option<Seq<char>> {
        match self {
            Error::InvalidOptions { message } => Some(message@),
            Error::Connection { message, .. } => Some(message@),
            Error::Download { message, .. } => Some(message@),
            Error::Internal { message, .. } => Some(message@),
            Error::BadRequest { message, .. } => Some(message@),
            Error::Auth { message, .. } => Some(message@),
            Error::PermissionDenied { message, .. } => Some(message@),
            Error::NotFound { message, .. } => Some(message@),
            Error::Gone { message, .. } => Some(message@),
            Error::RateLimited { message, .. } => Some(message@),
            Error::Api { message, .. } => Some(message@),
            _ => None,
        }
    }

    /// `Auth` or `PermissionDenied`.
    pub open spec fn spec_is_auth_error(self) -> bool {
        self is Auth || self is PermissionDenied
    }

    /// `Connection` or `Timeout`: no complete response was produced.
    pub open spec fn spec_is_network_error(self) -> bool {
        self is Connection || self is Timeout
    }

    /// Safe to retry: any network/timeout failure or a carried status of 5xx
    /// or 429 — never an aborted request.
    pub open spec fn spec_is_retryable(self) -> bool {
        &&& !(self is Aborted)
        &&& (self.spec_is_network_error() || match self.spec_status() {
            Some(s) => s >= 500 || s == 429,
            None => false,
        })
    }

    /// `true` for `Auth` (401) and `PermissionDenied` (403).
    pub fn is_auth_error(&self) -> (r: bool)
        ensures
            r == self.spec_is_auth_error(),
    {
        match self {
            Error::Auth { .. } => true,
            Error::PermissionDenied { .. } => true,
            _ => false,
        }
    }

    /// `true` for `RateLimited` (429).
    pub fn is_rate_limit_error(&self) -> (r: bool)
        ensures
            r == (self is RateLimited),
    {
        match self {
            Error::RateLimited { .. } => true,
            _ => false,
        }
    }

    /// `true` for `BadRequest` (400 / 422).
    pub fn is_validation_error(&self) -> (r: bool)
        ensures
            r == (self is BadRequest),
    {
        match self {
            Error::BadRequest { .. } => true,
            _ => false,
        }
    }

    /// `true` for `Connection` and `Timeout` — both indicate the request
    /// never produced a complete response.
    pub fn is_network_error(&self) -> (r: bool)
        ensures
            r == self.spec_is_network_error(),
    {
        match self {
            Error::Connection { .. } => true,
            Error::Timeout { .. } => true,
            _ => false,
        }
    }

    /// `true` when the request can safely be retried: any 5xx, 429, or
    /// network/timeout failure. Aborted requests are never retried.
    pub fn is_retryable(&self) -> (r: bool)
        ensures
            r == self.spec_is_retryable(),
    {
        if let Error::Aborted = self {
            return false;
        }
        if self.is_network_error() {
            return true;
        }
        match self.status() {
            Some(s) => s >= 500 || s == 429,
            None => false,
        }
    }

    /// The HTTP status code returned by the upstream API, if one was received.
    pub fn status(&self) -> (r: Option<u16>)
        ensures
            r == self.spec_status(),
    {
        match self {
            Error::BadRequest { status, .. } => Some(*status),
            Error::Auth { status, .. } => Some(*status),
            Error::PermissionDenied { status, .. } => Some(*status),
            Error::NotFound { status, .. } => Some(*status),
            Error::Gone { status, .. } => Some(*status),
            Error::RateLimited { status, .. } => Some(*status),
            Error::Api { status, .. } => Some(*status),
            Error::Internal { status, .. } => *status,
            Error::Download { status, .. } => *status,
            _ => None,
        }
    }

    /// The wire-level error code. For reserved variants this is a fixed string
    /// (`"invalid_options"`, `"network_error"`, `"timeout"`, `"aborted"`,
    /// `"DOWNLOAD_FAILED"`, `"INTERNAL_ERROR"`); for API variants it's the
    /// `code` field returned by the server.
    pub fn code(&self) -> (r: &str)
        ensures
            r@ == self.spec_code(),
    {
        match self {
            Error::InvalidOptions { .. } => "invalid_options",
            Error::Connection { .. } => "network_error",
            Error::Timeout { .. } => "timeout",
            Error::Aborted => "aborted",
            Error::Download { .. } => "DOWNLOAD_FAILED",
            Error::Internal { .. } => "INTERNAL_ERROR",
            Error::BadRequest { code, .. } => code.as_str(),
            Error::Auth { code, .. } => code.as_str(),
            Error::PermissionDenied { code, .. } => code.as_str(),
            Error::NotFound { code, .. } => code.as_str(),
            Error::Gone { code, .. } => code.as_str(),
            Error::RateLimited { code, .. } => code.as_str(),
            Error::Api { code, .. } => code.as_str(),
        }
    }

    /// The `X-Request-Id` value the server returned with this error, if any.
    /// Always `None` for SDK-internal variants (no upstream response).
    pub fn request_id(&self) -> (r: Option<&str>)
        ensures
            r matches Some(s) ==> self.spec_request_id() == Some(s@),
            r is None ==> self.spec_request_id() is None,
    {
        let rid = match self {
            Error::BadRequest { request_id, .. } => request_id,
            Error::Auth { request_id, .. } => request_id,
            Error::PermissionDenied { request_id, .. } => request_id,
            Error::NotFound { request_id, .. } => request_id,
            Error::Gone { request_id, .. } => request_id,
            Error::RateLimited { request_id, .. } => request_id,
            Error::Api { request_id, .. } => request_id,
            _ => return None,
        };
        match rid {
            Some(s) => Some(s.as_str()),
            None => None,
        }
    }
}

/// Clones an optional string, keeping its contents.
pub(crate) fn clone_opt_string(o: &Option<String>) -> (r: Option<String>)
    ensures
        r == *o,
{
    match o {
        Some(s) => Some(s.clone()),
        None => None,
    }
}

/// `copy` is what cloning `orig` produces: every field is kept, except that
/// the transport-error description of `Connection` is replaced by a marker
/// naming the message, and that of `Download` is dropped.
pub open spec fn is_clone_of(copy: Error, orig: Error) -> bool {
    match orig {
        Error::Connection { message, .. } => match copy {
            Error::Connection { message: m, source: s } => m == message && s@ == "(source dropped on clone): "@ + message@,
            _ => false,
        },
        Error::Download { message, status, .. } => match copy {
            Error::Download { message: m, status: st, source: s } => m == message && st == status && s is None,
            _ => false,
        },
        _ => copy == orig,
    }
}

impl Clone for Error {
    /// Clones the error. The transport-error description of `Connection`
    /// becomes `"(source dropped on clone): {message}"` and that of `Download`
    /// is dropped; `message`, `code`, `status` and `request_id` survive.
    fn clone(&self) -> (r: Self)
        ensures
            is_clone_of(r, *self),
    {
        match self {
            Error::InvalidOptions { message } => Error::InvalidOptions { message: message.clone() },
            Error::Connection { message, .. } => {
                let mut source = "(source dropped on clone): ".to_owned();
                source.append(message.as_str());
                Error::Connection { message: message.clone(), source }
            },
            Error::Timeout { timeout } => Error::Timeout { timeout: *timeout },
            Error::Aborted => Error::Aborted,
            Error::Download { message, status, .. } => Error::Download {
                message: message.clone(),
                status: *status,
                source: None,
            },
            Error::Internal { message, status } => Error::Internal {
                message: message.clone(),
                status: *status,
            },
            Error::BadRequest { status, code, message, request_id } => Error::BadRequest {
                status: *status,
                code: code.clone(),
                message: message.clone(),
                request_id: clone_opt_string(request_id),
            },
            Error::Auth { status, code, message, request_id } => Error::Auth {
                status: *status,
                code: code.clone(),
                message: message.clone(),
                request_id: clone_opt_string(request_id),
            },
            Error::PermissionDenied { status, code, message, request_id } => Error::PermissionDenied {
                status: *status,
                code: code.clone(),
                message: message.clone(),
                request_id: clone_opt_string(request_id),
            },
            Error::NotFound { status, code, message, request_id } => Error::NotFound {
                status: *status,
                code: code.clone(),
                message: message.clone(),
                request_id: clone_opt_string(request_id),
            },
            Error::Gone { status, code, message, request_id } => Error::Gone {
                status: *status,
                code: code.clone(),
                message: message.clone(),
                request_id: clone_opt_string(request_id),
            },
            Error::RateLimited { status, code, message, request_id } => Error::RateLimited {
                status: *status,
                code: code.clone(),
                message: message.clone(),
                request_id: clone_opt_string(request_id),
            },
            Error::Api { status, code, message, request_id } => Error::Api {
                status: *status,
                code: code.clone(),
                message: message.clone(),
                request_id: clone_opt_string(request_id),
            },
        }
    }
}

/// Cloning an error keeps everything its accessors and predicates report:
/// status, code, request id, message, and every `is_*` classification.
pub proof fn lemma_clone_preserves_accessors(orig: Error, copy: Error)
    requires
        is_clone_of(copy, orig),
    ensures
        copy.spec_status() == orig.spec_status(),
        copy.spec_code() == orig.spec_code(),
        copy.spec_request_id() == orig.spec_request_id(),
        copy.spec_message() == orig.spec_message(),
        copy.spec_is_auth_error() == orig.spec_is_auth_error(),
        copy.spec_is_network_error() == orig.spec_is_network_error(),
        copy.spec_is_retryable() == orig.spec_is_retryable(),
        (copy is RateLimited) == (orig is RateLimited),
        (copy is BadRequest) == (orig is BadRequest),
{
}

/// The variant an API response with this status maps to: 400/422 →
/// `BadRequest`, 401 → `Auth`, 403 → `PermissionDenied`, 404 → `NotFound`,
/// 410 → `Gone`, 429 → `RateLimited`, anything else → `Api`.
pub open spec fn classified_error(status: u16, code: String, message: String, request_id: Option<String>) -> Error {
    if status == 400 || status == 422 {
        Error::BadRequest { status, code, message, request_id }
    } else if status == 401 {
        Error::Auth { status, code, message, request_id }
    } else if status == 403 {
        Error::PermissionDenied { status, code, message, request_id }
    } else if status == 404 {
        Error::NotFound { status, code, message, request_id }
    } else if status == 410 {
        Error::Gone { status, code, message, request_id }
    } else if status == 429 {
        Error::RateLimited { status, code, message, request_id }
    } else {
        Error::Api { status, code, message, request_id }
    }
}

/// Maps a non-2xx status and the parsed error body to the most specific
/// `Error` variant.
pub fn classify_api_error(status: u16, code: String, message: String, request_id: Option<String>) -> (e: Error)
    ensures
        e == classified_error(status, code, message, request_id),
        (e is BadRequest) == (status == 400 || status == 422),
        (e is Auth) == (status == 401),
        (e is PermissionDenied) == (status == 403),
        (e is NotFound) == (status == 404),
        (e is Gone) == (status == 410),
        (e is RateLimited) == (status == 429),
        (e is Api) == !(status == 400 || status == 401 || status == 403 || status == 404 || status == 410
            || status == 422 || status == 429),
        e.spec_status() == Some(status),
        e.spec_code() == code@,
        e.spec_message() == Some(message@),
        e.spec_request_id() == opt_view(request_id),
{
    if status == 400 || status == 422 {
        Error::BadRequest { status, code, message, request_id }
    } else if status == 401 {
        Error::Auth { status, code, message, request_id }
    } else if status == 403 {
        Error::PermissionDenied { status, code, message, request_id }
    } else if status == 404 {
        Error::NotFound { status, code, message, request_id }
    } else if status == 410 {
        Error::Gone { status, code, message, request_id }
    } else if status == 429 {
        Error::RateLimited { status, code, message, request_id }
    } else {
        Error::Api { status, code, message, request_id }
    }
}

/// An error built from an API response reports that response faithfully:
/// its variant is fixed by the status alone (400/422 `BadRequest`, 401
/// `Auth`, 403 `PermissionDenied`, 404 `NotFound`, 410 `Gone`, 429
/// `RateLimited`, every other status `Api`); it carries the status, the
/// server's code, message and request id; it is retryable
/// exactly when the status is 5xx or 429 (the transport's own retry rule),
/// an auth error exactly for 401/403, a rate-limit error exactly for 429, a
/// validation error exactly for 400/422, and never a network error.
pub proof fn lemma_classified_error_reports_status(
    status: u16,
    code: String,
    message: String,
    request_id: Option<String>,
)
    ensures
        ({
            let e = classified_error(status, code, message, request_id);
            &&& e.is_api_status_variant()
            &&& e.spec_status() == Some(status)
            &&& e.spec_code() == code@
            &&& e.spec_message() == Some(message@)
            &&& e.spec_request_id() == opt_view(request_id)
            &&& e.spec_is_retryable() == (status >= 500 || status == 429)
            &&& e.spec_is_auth_error() == (status == 401 || status == 403)
            &&& (e is BadRequest) == (status == 400 || status == 422)
            &&& (e is Auth) == (status == 401)
            &&& (e is PermissionDenied) == (status == 403)
            &&& (e is NotFound) == (status == 404)
            &&& (e is Gone) == (status == 410)
            &&& (e is RateLimited) == (status == 429)
            &&& (e is Api) == !(status == 400 || status == 401 || status == 403 || status == 404
                || status == 410 || status == 422 || status == 429)
            &&& !e.spec_is_network_error()
        }),
{
}

/// `label (status): message`, the rendering shared by the API variants.
pub open spec fn status_line(label: Seq<char>, status: u16, message: Seq<char>) -> Seq<char> {
    label + " ("@ + decimal(status as nat) + "): "@ + message
}

impl Error {
    /// The human-readable rendering of the error.
    pub open spec fn spec_display(self) -> Seq<char> {
        match self {
            Error::InvalidOptions { message } => "invalid options: "@ + message@,
            Error::Connection { message, .. } => "network error: "@ + message@,
            Error::Timeout { timeout } => "request timed out after "@ + duration_debug_text(duration_nanos(timeout)),
            Error::Aborted => "request was aborted"@,
            Error::Download { message, .. } => "download failed: "@ + message@,
            Error::Internal { message, .. } => "internal error: "@ + message@,
            Error::BadRequest { status, message, .. } => status_line("bad request"@, status, message@),
            Error::Auth { status, message, .. } => status_line("authentication failed"@, status, message@),
            Error::PermissionDenied { status, message, .. } => status_line("permission denied"@, status, message@),
            Error::NotFound { status, message, .. } => status_line("not found"@, status, message@),
            Error::Gone { status, message, .. } => status_line("gone"@, status, message@),
            Error::RateLimited { status, message, .. } => status_line("rate limited"@, status, message@),
            Error::Api { status, message, .. } => status_line("API error"@, status, message@),
        }
    }

    /// Renders the error for people, e.g. `"bad request (400): data is
    /// required"` or `"request was aborted"`.
    pub fn to_string(&self) -> (s: String)
        ensures
            s@ == self.spec_display(),
    {
        match self {
            Error::InvalidOptions { message } => prefixed("invalid options: ", message.as_str()),
            Error::Connection { message, .. } => prefixed("network error: ", message.as_str()),
            Error::Timeout { timeout } => {
                let text = duration_debug(*timeout);
                prefixed("request timed out after ", text.as_str())
            },
            Error::Aborted => "request was aborted".to_owned(),
            Error::Download { message, .. } => prefixed("download failed: ", message.as_str()),
            Error::Internal { message, .. } => prefixed("internal error: ", message.as_str()),
            Error::BadRequest { status, message, .. } => render_status_line("bad request", *status, message.as_str()),
            Error::Auth { status, message, .. } => render_status_line("authentication failed", *status, message.as_str()),
            Error::PermissionDenied { status, message, .. } => render_status_line("permission denied", *status, message.as_str()),
            Error::NotFound { status, message, .. } => render_status_line("not found", *status, message.as_str()),
            Error::Gone { status, message, .. } => render_status_line("gone", *status, message.as_str()),
            Error::RateLimited { status, message, .. } => render_status_line("rate limited", *status, message.as_str()),
            Error::Api { status, message, .. } => render_status_line("API error", *status, message.as_str()),
        }
    }
}

/// `prefix` followed by `rest`, as a fresh `String`.
fn prefixed(prefix: &str, rest: &str) -> (s: String)
    ensures
        s@ == prefix@ + rest@,
{
    let mut s = prefix.to_owned();
    s.append(rest);
    s
}

/// Renders `label (status): message`.
fn render_status_line(label: &str, status: u16, message: &str) -> (s: String)
    ensures
        s@ == status_line(label@, status, message@),
{
    let mut s = label.to_owned();
    s.append(" (");
    push_decimal(&mut s, status as u64);
    s.append("): ");
    s.append(message);
    s
}

} // verus!
