//! Payloads handed to the client's observability hooks.

use std::time::Duration;
use vstd::prelude::*;

use crate::error::{clone_opt_string, is_clone_of, Error};

verus! {

/// Payload passed to the `on_retry` hook before each retry sleep.
#[derive(Debug)]
pub struct RetryEvent {
    /// The attempt number about to be made (1-based). The first retry is `2`.
    pub attempt: u32,
    /// The sleep duration before this attempt starts.
    pub delay: Duration,
    /// The error that triggered the retry. Cloned for the event — the
    /// transport-error description of `Connection` and `Download` is not
    /// carried over; `message`, `code`, `status`, and `request_id` survive.
    pub reason: Error,
}

/// Payload passed to the `on_request` hook just before each HTTP attempt is
/// dispatched (including retries). The `attempt` field is 1-based: the
/// initial try is `1`, the first retry is `2`, etc.
#[derive(Debug)]
pub struct RequestEvent {
    /// The HTTP method about to be issued (e.g. `"GET"`, `"POST"`, `"DELETE"`).
    pub method: String,
    /// The fully-resolved URL the request will hit, including the base URL.
    pub url: String,
    /// 1-based attempt counter. `1` is the initial try; `2..=max_retries+1`
    /// are subsequent retries.
    pub attempt: u32,
}

/// Payload passed to the `on_response` hook once a successful (2xx)
/// response has been received and its body has been fully read.
#[derive(Debug)]
pub struct ResponseEvent {
    /// HTTP status code (always in the 200..=299 range — the hook does not
    /// fire for error responses).
    pub status: u16,
    /// `X-Request-Id` header value when the server provides one.
    pub request_id: Option<String>,
    /// Wall-clock time in milliseconds between issuing the request and
    /// finishing the body read.
    pub duration_ms: u64,
}

impl Clone for RetryEvent {
    /// Clones the event: the attempt number and delay are kept, and the
    /// reason is cloned as `Error::clone` clones it.
    fn clone(&self) -> (r: Self)
        ensures
            r.attempt == self.attempt,
            r.delay == self.delay,
            is_clone_of(r.reason, self.reason),
    {
        RetryEvent { attempt: self.attempt, delay: self.delay, reason: self.reason.clone() }
    }
}

impl Clone for RequestEvent {
    /// Clones the event, keeping every field.
    fn clone(&self) -> (r: Self)
        ensures
            r == *self,
    {
        RequestEvent { method: self.method.clone(), url: self.url.clone(), attempt: self.attempt }
    }
}

impl Clone for ResponseEvent {
    /// Clones the event, keeping every field.
    fn clone(&self) -> (r: Self)
        ensures
            r == *self,
    {
        ResponseEvent {
            status: self.status,
            request_id: clone_opt_string(&self.request_id),
            duration_ms: self.duration_ms,
        }
    }
}

} // verus!
