//! Client configuration: the defaults, the API paths and header names, and
//! the validation of caller-supplied options.

use std::time::Duration;
use vstd::prelude::*;
use vstd::string::*;

use crate::duration::{duration_nanos, nanos_per_milli, nanos_per_sec};
use crate::error::Error;
use crate::request::{parse_url, url_parse_outcome};
use crate::transport::RetryPolicy;

verus! {

/// Path of the render endpoint.
pub const PATH_RENDER: &'static str = "/v1/render";
/// Path of the render-preview endpoint.
pub const PATH_RENDER_PREVIEW: &'static str = "/v1/render/preview";
/// Prefix for per-document endpoints — followed by `/{id}` (percent-encoded)
/// and optionally `/preview` or `/thumbnails`.
pub const PATH_DOCUMENTS: &'static str = "/v1/documents";

/// Base URL used when none is configured.
pub const DEFAULT_BASE_URL: &'static str = "https://api.poli.page";
/// Retries after the first attempt, by default (three attempts in all).
pub const DEFAULT_MAX_RETRIES: u32 = 2;
/// Initial retry delay, by default, in milliseconds.
pub const DEFAULT_RETRY_DELAY_MILLIS: u64 = 500;
/// Per-attempt timeout, by default, in seconds.
pub const DEFAULT_TIMEOUT_SECS: u64 = 60;

/// Request header carrying the idempotency key of a `POST`.
pub const HEADER_IDEMPOTENCY_KEY: &'static str = "Idempotency-Key";
/// Response header carrying the server's request id.
pub const HEADER_REQUEST_ID: &'static str = "X-Request-Id";
/// Response header carrying a stored document's page count.
pub const HEADER_DOCUMENT_PAGE_COUNT: &'static str = "X-Document-Page-Count";

/// The default initial retry delay (500 ms).
pub fn default_retry_delay() -> (d: Duration)
    ensures
        duration_nanos(d) == DEFAULT_RETRY_DELAY_MILLIS * nanos_per_milli(),
{
    Duration::from_millis(DEFAULT_RETRY_DELAY_MILLIS)
}

/// The default per-attempt timeout (60 s).
pub fn default_timeout() -> (d: Duration)
    ensures
        duration_nanos(d) == DEFAULT_TIMEOUT_SECS * nanos_per_sec(),
{
    Duration::from_secs(DEFAULT_TIMEOUT_SECS)
}

/// Resolved client settings.
#[derive(Debug, Clone)]
pub struct ClientConfig {
    /// The API key sent as a bearer token.
    pub api_key: String,
    /// Serialization of the parsed base URL.
    pub base_url: String,
    /// Retries after the first attempt.
    pub max_retries: u32,
    /// Initial retry delay.
    pub retry_delay: Duration,
    /// Per-attempt timeout.
    pub timeout: Duration,
    /// `User-Agent` sent with every request.
    pub user_agent: String,
}

impl ClientConfig {
    /// The retry settings of this configuration.
    pub fn retry_policy(&self) -> (p: RetryPolicy)
        ensures
            p.max_retries == self.max_retries,
            p.retry_delay == self.retry_delay,
    {
        RetryPolicy { max_retries: self.max_retries, retry_delay: self.retry_delay }
    }
}

/// What std's `Debug` renders for a string: the text in double quotes, with
/// quotes, backslashes and non-printable characters escaped.
pub uninterp spec fn str_debug_text(s: Seq<char>) -> Seq<char>;

/// Renders a string with std's `Debug` formatting.
#[verifier::external_body]
fn debug_quoted(s: &str) -> (r: String)
    ensures
        r@ == str_debug_text(s@),
{
    format!("{s:?}")
}

/// Caller-supplied client options, before validation. Unset options take
/// their defaults.
#[derive(Debug, Clone)]
pub struct ClientOptions {
    /// The API key. Required.
    pub api_key: Option<String>,
    /// Base URL override.
    pub base_url: Option<String>,
    /// Retry-count override.
    pub max_retries: Option<u32>,
    /// Initial-retry-delay override.
    pub retry_delay: Option<Duration>,
    /// Per-attempt-timeout override.
    pub timeout: Option<Duration>,
}

/// Whether `c` is the configuration `o` resolves to with user agent `ua`:
/// every option as given or defaulted, and the base URL as the URL parser
/// serializes it.
pub open spec fn resolves_to(o: ClientOptions, ua: Seq<char>, c: ClientConfig) -> bool {
    &&& o.api_key matches Some(k) && c.api_key@ == k@
    &&& url_parse_outcome(match o.base_url {
        Some(b) => b@,
        None => DEFAULT_BASE_URL@,
    }) == Ok::<Seq<char>, Seq<char>>(c.base_url@)
    &&& c.max_retries == (match o.max_retries {
        Some(n) => n,
        None => DEFAULT_MAX_RETRIES,
    })
    &&& duration_nanos(c.retry_delay) == (match o.retry_delay {
        Some(d) => duration_nanos(d),
        None => (DEFAULT_RETRY_DELAY_MILLIS as nat * nanos_per_milli()) as nat,
    })
    &&& duration_nanos(c.timeout) == (match o.timeout {
        Some(d) => duration_nanos(d),
        None => (DEFAULT_TIMEOUT_SECS as nat * nanos_per_sec()) as nat,
    })
    &&& c.user_agent@ == ua
}

/// Resolving keeps every option the caller gave exactly as given —
/// including `max_retries: Some(0)`, which disables retries — and applies a
/// default only to an option left unset: two retries, a 500 ms retry delay,
/// a 60 s timeout.
pub proof fn lemma_given_options_are_kept(o: ClientOptions, ua: Seq<char>, c: ClientConfig)
    requires
        resolves_to(o, ua, c),
    ensures
        o.max_retries matches Some(n) ==> c.max_retries == n,
        o.max_retries is None ==> c.max_retries == 2,
        o.retry_delay matches Some(d) ==> duration_nanos(c.retry_delay) == duration_nanos(d),
        o.retry_delay is None ==> duration_nanos(c.retry_delay) == 500_000_000,
        o.timeout matches Some(d) ==> duration_nanos(c.timeout) == duration_nanos(d),
        o.timeout is None ==> duration_nanos(c.timeout) == 60_000_000_000,
        o.api_key is Some && c.api_key@ == o.api_key->0@,
        c.user_agent@ == ua,
{
}

impl ClientOptions {
    /// No option set.
    pub fn new() -> (o: ClientOptions)
        ensures
            o.api_key is None,
            o.base_url is None,
            o.max_retries is None,
            o.retry_delay is None,
            o.timeout is None,
    {
        ClientOptions { api_key: None, base_url: None, max_retries: None, retry_delay: None, timeout: None }
    }

    /// Validate the options and resolve the defaults. Fails with
    /// `InvalidOptions` when the API key is missing or empty
    /// (`api_key is required`), or when the base URL does not parse
    /// (`invalid base_url "{url}": {reason}`).
    pub fn resolve(self, user_agent: String) -> (r: Result<ClientConfig, Error>)
        ensures
            match self.api_key {
                None => r matches Err(Error::InvalidOptions { message }) && message@ == "api_key is required"@,
                Some(k) => if k@.len() == 0 {
                    r matches Err(Error::InvalidOptions { message }) && message@ == "api_key is required"@
                } else {
                    let base = match self.base_url {
                        Some(b) => b@,
                        None => DEFAULT_BASE_URL@,
                    };
                    match url_parse_outcome(base) {
                        Ok(_) => r matches Ok(c) && resolves_to(self, user_agent@, c),
                        Err(why) => r matches Err(Error::InvalidOptions { message })
                            && message@ == "invalid base_url "@ + str_debug_text(base) + ": "@ + why,
                    }
                },
            },
            r matches Ok(c) ==> self.api_key is Some && c.api_key@ == self.api_key->0@ && c.api_key@.len() > 0,
            r matches Ok(c) ==> c.max_retries == (match self.max_retries {
                Some(n) => n,
                None => 2u32,
            }),
            r matches Ok(c) ==> self.retry_delay matches Some(d) ==> c.retry_delay == d,
            r matches Ok(c) ==> self.retry_delay is None ==> duration_nanos(c.retry_delay) == 500_000_000,
            r matches Ok(c) ==> self.timeout matches Some(d) ==> c.timeout == d,
            r matches Ok(c) ==> self.timeout is None ==> duration_nanos(c.timeout) == 60_000_000_000,
            r matches Ok(c) ==> c.user_agent@ == user_agent@,
    {
        let api_key = match self.api_key {
            Some(k) => k,
            None => String::new(),
        };
        if api_key.as_str().is_empty() {
            return Err(Error::InvalidOptions { message: "api_key is required".to_owned() });
        }
        let base_url_text = match self.base_url {
            Some(b) => b,
            None => DEFAULT_BASE_URL.to_owned(),
        };
        let base_url = match parse_url(base_url_text.as_str()) {
            Ok(u) => u,
            Err(why) => {
                let mut message = "invalid base_url ".to_owned();
                let quoted = debug_quoted(base_url_text.as_str());
                message.append(quoted.as_str());
                message.append(": ");
                message.append(why.as_str());
                return Err(Error::InvalidOptions { message });
            },
        };
        let max_retries = match self.max_retries {
            Some(n) => n,
            None => DEFAULT_MAX_RETRIES,
        };
        let retry_delay = match self.retry_delay {
            Some(d) => d,
            None => default_retry_delay(),
        };
        let timeout = match self.timeout {
            Some(d) => d,
            None => default_timeout(),
        };
        Ok(ClientConfig { api_key, base_url, max_retries, retry_delay, timeout, user_agent })
    }
}

} // verus!
