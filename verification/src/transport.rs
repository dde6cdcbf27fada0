//! The decisions of the request loop: what each attempt came to, whether to
//! retry it and after what wait, and how a failed response or transport
//! failure becomes an `Error`. The loop that sends requests, sleeps and runs
//! the hooks performs these decisions; it decides nothing itself.

use std::time::Duration;
use vstd::prelude::*;

use crate::duration::duration_nanos;
use crate::error::{classified_error, classify_api_error, opt_view, Error};
use crate::text::{decimal, push_decimal};
use vstd::string::*;
use vstd::utf8::*;
use http::HeaderMap;
use crate::config::ClientConfig;
use crate::request::{
    build_headers, header_entries, is_header_value_text, request_url, standard_headers, trim_trailing_slashes,
    url_parse_outcome, HttpMethod,
};
use crate::retry_policy::{exponential_backoff_nanos, parse_retry_after, plan_backoff, retry_after_cap_nanos, retry_after_result, BackoffPlan};

verus! {

/// The deadline of each attempt: the call's own override, else the
/// client's timeout.
pub fn attempt_timeout(call_override: Option<Duration>, client_timeout: Duration) -> (t: Duration)
    ensures
        t == (match call_override {
            Some(d) => d,
            None => client_timeout,
        }),
{
    match call_override {
        Some(d) => d,
        None => client_timeout,
    }
}

/// A failed attempt: the error it produced, whether the loop may retry it,
/// and the server's `Retry-After` delay when it sent a usable one.
#[derive(Debug)]
pub struct AttemptFailure {
    /// The error the attempt produced.
    pub error: Error,
    /// Whether the failure is transient (5xx, 429, network, timeout).
    pub retryable: bool,
    /// Delay the server asked for before the next attempt.
    pub retry_after: Option<Duration>,
}

impl AttemptFailure {
    /// A failure the loop must not retry.
    pub fn fatal(error: Error) -> (f: AttemptFailure)
        ensures
            f.error == error,
            !f.retryable,
            f.retry_after is None,
    {
        AttemptFailure { error, retryable: false, retry_after: None }
    }
}

/// What one HTTP attempt came to.
#[derive(Debug)]
pub enum AttemptOutcome {
    /// A 2xx response was received and read.
    Succeeded,
    /// The attempt failed.
    Failed(AttemptFailure),
}

/// The retry settings of a client.
#[derive(Debug, Clone, Copy)]
pub struct RetryPolicy {
    /// How many retries may follow the first attempt (`0` disables retries).
    pub max_retries: u32,
    /// Initial retry delay, doubled for every further retry.
    pub retry_delay: Duration,
}

/// What the loop does after an attempt.
#[derive(Debug)]
pub enum RetryStep {
    /// The attempt succeeded: hand back its response.
    Done,
    /// Stop and fail with this error (the `on_error` hook fires).
    GiveUp(Error),
    /// Wait per `backoff`, report the retry (the `on_retry` hook fires with
    /// `attempt` and `reason`), then make attempt number `attempt`.
    Retry {
        /// 1-based number of the attempt about to be made.
        attempt: u32,
        /// How long to wait first.
        backoff: BackoffPlan,
        /// The failure that triggered the retry.
        reason: Error,
    },
}

/// Whether `p` is the backoff plan before retry number `retry` (1-based
/// count of retries) given the server's `retry_after`.
pub open spec fn is_backoff_plan(p: BackoffPlan, retry: nat, base: Duration, retry_after: Option<Duration>) -> bool {
    match retry_after {
        Some(d) => p == BackoffPlan::Exact(d),
        None => p matches BackoffPlan::Jittered(b) && duration_nanos(b) == exponential_backoff_nanos(retry, duration_nanos(base)),
    }
}

/// Whether the loop goes on after attempt number `attempt` (1-based) came to
/// `outcome`: only after a retryable failure, and only while retries remain.
pub open spec fn continues(policy: RetryPolicy, attempt: nat, outcome: AttemptOutcome) -> bool {
    outcome matches AttemptOutcome::Failed(f) && f.retryable && attempt <= policy.max_retries
}

/// Whether `s` is the decision taken after attempt number `attempt` came to
/// `outcome`: `Done` after a success; after a retryable failure while
/// retries remain, a retry as attempt `attempt + 1` for that failure's error,
/// after the backoff for retry number `attempt`; otherwise giving up with
/// the failure's error.
pub open spec fn is_step(policy: RetryPolicy, attempt: nat, outcome: AttemptOutcome, s: RetryStep) -> bool {
    match outcome {
        AttemptOutcome::Succeeded => s is Done,
        AttemptOutcome::Failed(f) => if f.retryable && attempt <= policy.max_retries {
            s matches RetryStep::Retry { attempt: next, backoff, reason } && next == attempt + 1
                && reason == f.error && is_backoff_plan(backoff, attempt, policy.retry_delay, f.retry_after)
        } else {
            s matches RetryStep::GiveUp(e) && e == f.error
        },
    }
}

/// Decide what follows attempt number `attempt` (1-based; attempts run from
/// `1` to `max_retries + 1`). A success ends the loop; a failure that is not
/// retryable, or that used up the last attempt, ends it with that failure's
/// error; otherwise the next attempt follows after a backoff — the server's
/// `Retry-After` verbatim, or exponential backoff from `retry_delay`.
pub fn next_step(policy: &RetryPolicy, attempt: u32, outcome: AttemptOutcome) -> (s: RetryStep)
    requires
        1 <= attempt <= policy.max_retries as int + 1,
        attempt < u32::MAX,
    ensures
        outcome is Succeeded ==> s is Done,
        (s is Retry) == continues(*policy, attempt as nat, outcome),
        is_step(*policy, attempt as nat, outcome, s),
        outcome matches AttemptOutcome::Failed(f) ==> match s {
            RetryStep::Retry { attempt: next, backoff, reason } => next == attempt + 1 && reason == f.error
                && is_backoff_plan(backoff, attempt as nat, policy.retry_delay, f.retry_after),
            RetryStep::GiveUp(e) => e == f.error,
            RetryStep::Done => false,
        },
{
    match outcome {
        AttemptOutcome::Succeeded => RetryStep::Done,
        AttemptOutcome::Failed(f) => {
            if f.retryable && attempt <= policy.max_retries {
                let backoff = plan_backoff(attempt, policy.retry_delay, f.retry_after);
                RetryStep::Retry { attempt: attempt + 1, backoff, reason: f.error }
            } else {
                RetryStep::GiveUp(f.error)
            }
        },
    }
}

/// Client errors are final: a failed response whose status is a 4xx other
/// than 429 is never retried, whatever attempt it answered.
pub proof fn lemma_client_errors_are_never_retried(policy: RetryPolicy, attempt: nat, f: AttemptFailure, status: u16)
    requires
        f.retryable == retryable_status(status),
        400 <= status < 500,
        status != 429,
    ensures
        !continues(policy, attempt, AttemptOutcome::Failed(f)),
{
}

/// How many attempts the loop makes when attempt number `attempt` and its
/// successors come to `outcomes`, in order (stopping early if `outcomes`
/// runs out).
pub open spec fn attempts_made(policy: RetryPolicy, attempt: nat, outcomes: Seq<AttemptOutcome>) -> nat
    decreases outcomes.len(),
{
    if outcomes.len() == 0 {
        0
    } else if continues(policy, attempt, outcomes[0]) {
        1 + attempts_made(policy, attempt + 1, outcomes.skip(1))
    } else {
        1
    }
}

proof fn lemma_attempts_made_bound(policy: RetryPolicy, attempt: nat, outcomes: Seq<AttemptOutcome>)
    requires
        1 <= attempt <= policy.max_retries + 1,
    ensures
        attempts_made(policy, attempt, outcomes) <= policy.max_retries + 2 - attempt,
    decreases outcomes.len(),
{
    if outcomes.len() > 0 && continues(policy, attempt, outcomes[0]) {
        lemma_attempts_made_bound(policy, attempt + 1, outcomes.skip(1));
    }
}

/// However the attempts turn out, a request is tried at most
/// `max_retries + 1` times in all (the default of two retries means three
/// attempts; `0` disables retries).
pub proof fn lemma_attempts_never_exceed_retry_budget(policy: RetryPolicy, outcomes: Seq<AttemptOutcome>)
    ensures
        attempts_made(policy, 1, outcomes) <= policy.max_retries + 1,
{
    lemma_attempts_made_bound(policy, 1, outcomes);
}

proof fn lemma_attempts_made_persistent(policy: RetryPolicy, attempt: nat, outcomes: Seq<AttemptOutcome>)
    requires
        1 <= attempt <= policy.max_retries + 1,
        outcomes.len() >= policy.max_retries + 2 - attempt,
        forall|i: int| 0 <= i < outcomes.len() ==> (#[trigger] outcomes[i] matches AttemptOutcome::Failed(f) && f.retryable),
    ensures
        attempts_made(policy, attempt, outcomes) == policy.max_retries + 2 - attempt,
    decreases outcomes.len(),
{
    assert(outcomes[0] matches AttemptOutcome::Failed(f) && f.retryable);
    if attempt <= policy.max_retries {
        let rest = outcomes.skip(1);
        assert forall|i: int| 0 <= i < rest.len() implies (#[trigger] rest[i] matches AttemptOutcome::Failed(f) && f.retryable) by {
            assert(rest[i] == outcomes[i + 1]);
        }
        lemma_attempts_made_persistent(policy, attempt + 1, rest);
    }
}

/// A transient failure that keeps recurring is retried until the budget is
/// spent: exactly `max_retries + 1` attempts are made.
pub proof fn lemma_persistent_failure_spends_retry_budget(policy: RetryPolicy, outcomes: Seq<AttemptOutcome>)
    requires
        outcomes.len() >= policy.max_retries + 1,
        forall|i: int| 0 <= i < outcomes.len() ==> (#[trigger] outcomes[i] matches AttemptOutcome::Failed(f) && f.retryable),
    ensures
        attempts_made(policy, 1, outcomes) == policy.max_retries + 1,
{
    lemma_attempts_made_persistent(policy, 1, outcomes);
}

/// A success, or a failure that is not retryable, ends the loop at once:
/// nothing is attempted after it.
pub proof fn lemma_final_outcome_stops_the_loop(policy: RetryPolicy, attempt: nat, outcomes: Seq<AttemptOutcome>)
    requires
        outcomes.len() > 0,
        outcomes[0] is Succeeded || (outcomes[0] matches AttemptOutcome::Failed(f) && !f.retryable),
    ensures
        attempts_made(policy, attempt, outcomes) == 1,
{
}

/// Whether `steps` is what the loop decided over one whole call whose
/// attempts came to `outcomes`: attempt number `k + 1` came to `outcomes[k]`
/// and `steps[k]` is the decision taken after it (as `next_step` takes it);
/// the loop went on after every step but the last, and the last ended it.
pub open spec fn is_call(policy: RetryPolicy, outcomes: Seq<AttemptOutcome>, steps: Seq<RetryStep>) -> bool {
    &&& outcomes.len() >= 1
    &&& steps.len() == outcomes.len()
    &&& forall|k: int| #![trigger steps[k]] 0 <= k < steps.len() ==> is_step(policy, (k + 1) as nat, outcomes[k], steps[k])
    &&& forall|k: int| #![trigger steps[k]] 0 <= k < steps.len() - 1 ==> steps[k] is Retry
    &&& !(steps.last() is Retry)
}

/// A call ends with its last attempt: it makes between one and
/// `max_retries + 1` attempts, every attempt before the last failed in a way
/// that may be retried, and the call succeeds exactly when the last attempt
/// did; otherwise it fails with the last attempt's error, which either may
/// not be retried or came when the retries were used up.
pub proof fn lemma_call_ends_with_its_last_attempt(policy: RetryPolicy, outcomes: Seq<AttemptOutcome>, steps: Seq<RetryStep>)
    requires
        is_call(policy, outcomes, steps),
    ensures
        1 <= outcomes.len() <= policy.max_retries + 1,
        forall|k: int| 0 <= k < outcomes.len() - 1 ==> (#[trigger] outcomes[k] matches AttemptOutcome::Failed(f) && f.retryable),
        (steps.last() is Done) == (outcomes.last() is Succeeded),
        outcomes.last() matches AttemptOutcome::Failed(f) ==> steps.last() == RetryStep::GiveUp(f.error)
            && (!f.retryable || outcomes.len() == policy.max_retries + 1),
        attempts_made(policy, 1, outcomes) == outcomes.len(),
{
    let n = outcomes.len() as int;
    assert forall|k: int| 0 <= k < n - 1 implies (#[trigger] outcomes[k] matches AttemptOutcome::Failed(f) && f.retryable) by {
        assert(is_step(policy, (k + 1) as nat, outcomes[k], steps[k]));
        assert(steps[k] is Retry);
    }
    if n >= 2 {
        assert(is_step(policy, (n - 1) as nat, outcomes[n - 2], steps[n - 2]));
        assert(steps[n - 2] is Retry);
    }
    assert(is_step(policy, n as nat, outcomes[n - 1], steps[n - 1]));
    lemma_call_attempts_made(policy, 1, outcomes, steps, 0);
    assert(outcomes.skip(0) == outcomes);
}

/// Counting from the step at `start` (attempt `attempt`), the loop makes as
/// many attempts as there are outcomes left.
proof fn lemma_call_attempts_made(policy: RetryPolicy, attempt: nat, outcomes: Seq<AttemptOutcome>, steps: Seq<RetryStep>, start: int)
    requires
        is_call(policy, outcomes, steps),
        0 <= start < outcomes.len(),
        attempt == start + 1,
    ensures
        attempts_made(policy, attempt, outcomes.skip(start)) == outcomes.len() - start,
    decreases outcomes.len() - start,
{
    let rest = outcomes.skip(start);
    assert(rest[0] == outcomes[start]);
    assert(is_step(policy, attempt, outcomes[start], steps[start]));
    if start < outcomes.len() - 1 {
        assert(steps[start] is Retry);
        assert(continues(policy, attempt, rest[0]));
        assert(rest.skip(1) == outcomes.skip(start + 1));
        lemma_call_attempts_made(policy, attempt + 1, outcomes, steps, start + 1);
    } else {
        assert(steps[start] == steps.last());
        assert(!continues(policy, attempt, rest[0]));
    }
}

/// Whether `s` is the retry after attempt number `attempt` came to
/// `outcome`: a retry as attempt `attempt + 1`, for the failure's error,
/// after the server's `Retry-After` verbatim or else the backoff for retry
/// number `attempt`.
pub open spec fn retries_after(policy: RetryPolicy, attempt: nat, outcome: AttemptOutcome, s: RetryStep) -> bool {
    s matches RetryStep::Retry { attempt: next, backoff, reason } && next == attempt + 1 && (
    outcome matches AttemptOutcome::Failed(f) && reason == f.error
        && is_backoff_plan(backoff, attempt, policy.retry_delay, f.retry_after))
}

/// The retry hook fires once before each further attempt: exactly the steps
/// before the last are retries, and the retry after attempt `k + 1` names
/// attempt `k + 2`, carries that attempt's error, and waits the server's
/// `Retry-After` verbatim or else the backoff for retry number `k + 1`. A
/// call of `n` attempts retries `n - 1` times.
pub proof fn lemma_one_retry_before_each_further_attempt(policy: RetryPolicy, outcomes: Seq<AttemptOutcome>, steps: Seq<RetryStep>)
    requires
        is_call(policy, outcomes, steps),
    ensures
        forall|k: int| 0 <= k < steps.len() ==> ((#[trigger] steps[k] is Retry) == (k < steps.len() - 1)),
        forall|k: int| 0 <= k < steps.len() - 1 ==> retries_after(policy, (k + 1) as nat, outcomes[k], #[trigger] steps[k]),
{
    assert forall|k: int| 0 <= k < steps.len() implies ((#[trigger] steps[k] is Retry) == (k < steps.len() - 1)) by {
        if k == steps.len() - 1 {
            assert(steps[k] == steps.last());
        }
    }
    assert forall|k: int| 0 <= k < steps.len() - 1 implies retries_after(policy, (k + 1) as nat, outcomes[k], #[trigger] steps[k]) by {
        assert(is_step(policy, (k + 1) as nat, outcomes[k], steps[k]));
    }
}

/// The error hook fires once exactly when the call fails: only the last
/// step can end the call, it gives up exactly when the last attempt failed
/// (with that attempt's error), and it is `Done` exactly when the last
/// attempt succeeded; no earlier step gives up or is done.
pub proof fn lemma_gives_up_once_iff_the_call_fails(policy: RetryPolicy, outcomes: Seq<AttemptOutcome>, steps: Seq<RetryStep>)
    requires
        is_call(policy, outcomes, steps),
    ensures
        forall|k: int| 0 <= k < steps.len() ==> ((#[trigger] steps[k] is GiveUp) == (k == steps.len() - 1 && outcomes.last() is Failed)),
        forall|k: int| 0 <= k < steps.len() ==> ((#[trigger] steps[k] is Done) == (k == steps.len() - 1 && outcomes.last() is Succeeded)),
        outcomes.last() matches AttemptOutcome::Failed(f) ==> steps.last() == RetryStep::GiveUp(f.error),
{
    let n = steps.len() as int;
    assert(is_step(policy, n as nat, outcomes[n - 1], steps[n - 1]));
    assert forall|k: int| 0 <= k < n implies ((#[trigger] steps[k] is GiveUp) == (k == n - 1 && outcomes.last() is Failed))
        && ((steps[k] is Done) == (k == n - 1 && outcomes.last() is Succeeded)) by {
        if k < n - 1 {
            assert(steps[k] is Retry);
        } else {
            assert(steps[k] == steps.last());
        }
    }
}

/// What one attempt of a call sends: its URL, its headers, and the deadline
/// it is held to.
#[derive(Debug)]
pub struct PreparedAttempt {
    /// The absolute request URL.
    pub url: String,
    /// The standard request headers.
    pub headers: HeaderMap,
    /// The attempt's deadline.
    pub timeout: Duration,
}

/// The view of an optional string slice.
pub open spec fn str_opt_view(o: Option<&str>) -> Option<Seq<char>> {
    match o {
        Some(s) => Some(s@),
        None => None,
    }
}

/// Whether `p` is what an attempt of a call sends, for a client with
/// `config` and a request with `method`, `path`, idempotency key `key` and
/// per-call timeout override `timeout_override`: the URL built from the base
/// URL and the path, the standard headers, and the deadline. None of it
/// depends on which attempt it is.
pub open spec fn is_prepared_attempt(
    config: ClientConfig,
    method: HttpMethod,
    path: Seq<char>,
    key: Option<Seq<char>>,
    timeout_override: Option<Duration>,
    p: PreparedAttempt,
) -> bool {
    &&& url_parse_outcome(trim_trailing_slashes(config.base_url@) + path) == Ok::<Seq<char>, Seq<char>>(p.url@)
    &&& header_entries(p.headers) == standard_headers(method, config.api_key@, key, config.user_agent@)
    &&& p.timeout == (match timeout_override {
        Some(d) => d,
        None => config.timeout,
    })
}

/// Prepare an attempt of a call: its URL (or the `InvalidOptions` error
/// `could not build url for {path}: {reason}`, which is not retried), its
/// standard headers, and its deadline (the call's override, else the
/// client's timeout).
pub fn prepare_attempt(
    config: &ClientConfig,
    method: HttpMethod,
    path: &str,
    idempotency_key: Option<&str>,
    timeout_override: Option<Duration>,
) -> (r: Result<PreparedAttempt, Error>)
    ensures
        match url_parse_outcome(trim_trailing_slashes(config.base_url@) + path@) {
            Ok(_) => r matches Ok(p) && is_prepared_attempt(*config, method, path@, str_opt_view(idempotency_key), timeout_override, p),
            Err(why) => r matches Err(Error::InvalidOptions { message })
                && message@ == "could not build url for "@ + path@ + ": "@ + why,
        },
        r matches Ok(p) ==> p.timeout == (match timeout_override {
            Some(d) => d,
            None => config.timeout,
        }),
        r matches Ok(p) ==> header_entries(p.headers) == standard_headers(method, config.api_key@, str_opt_view(idempotency_key), config.user_agent@),
        r matches Ok(p) ==> url_parse_outcome(trim_trailing_slashes(config.base_url@) + path@) == Ok::<Seq<char>, Seq<char>>(p.url@),
{
    let url = match request_url(config.base_url.as_str(), path) {
        Ok(u) => u,
        Err(e) => return Err(e),
    };
    let headers = build_headers(&method, config.api_key.as_str(), idempotency_key, config.user_agent.as_str());
    let timeout = attempt_timeout(timeout_override, config.timeout);
    Ok(PreparedAttempt { url, headers, timeout })
}

/// An attempt's deadline is the call's own timeout whenever one is given,
/// whatever its length (longer or shorter than the client's), and the
/// client's timeout otherwise.
pub proof fn lemma_call_timeout_overrides_client_timeout(
    config: ClientConfig,
    method: HttpMethod,
    path: Seq<char>,
    key: Option<Seq<char>>,
    timeout_override: Option<Duration>,
    p: PreparedAttempt,
)
    requires
        is_prepared_attempt(config, method, path, key, timeout_override, p),
    ensures
        timeout_override matches Some(d) ==> p.timeout == d,
        timeout_override is None ==> p.timeout == config.timeout,
{
}

/// Every attempt of one call sends the same request: the same URL, the
/// same headers and the same deadline, whichever attempt it is; so a `POST`
/// keyed with a valid idempotency key carries that key, byte for byte, on
/// the first attempt and on every retry.
pub proof fn lemma_every_attempt_sends_the_same_request(
    config: ClientConfig,
    method: HttpMethod,
    path: Seq<char>,
    key: Option<Seq<char>>,
    timeout_override: Option<Duration>,
    first: PreparedAttempt,
    later: PreparedAttempt,
)
    requires
        is_prepared_attempt(config, method, path, key, timeout_override, first),
        is_prepared_attempt(config, method, path, key, timeout_override, later),
    ensures
        first.url@ == later.url@,
        header_entries(first.headers) == header_entries(later.headers),
        first.timeout == later.timeout,
        method == HttpMethod::Post && key is Some && is_header_value_text(key->0) ==> ({
            let h = header_entries(later.headers);
            h.dom().contains("idempotency-key"@) && h["idempotency-key"@] == encode_utf8(key->0)
        }),
{
}

/// The fields of an API error body, as the JSON decoder found them (`None`
/// for a field that is absent or `null`).
#[derive(Debug, Clone)]
pub struct ErrorBody {
    /// Machine-readable error code.
    pub code: Option<String>,
    /// RFC 7807 `detail`: the specific reason.
    pub detail: Option<String>,
    /// RFC 7807 `title`: the generic name of the problem.
    pub title: Option<String>,
    /// Legacy `message` field.
    pub message: Option<String>,
    /// Legacy `error` field, used as the code when `code` is absent.
    pub error: Option<String>,
}

/// The error code reported for a failed response: `INTERNAL_ERROR` when the
/// body was not a JSON error object (`None`), otherwise its `code`, else its
/// `error`, else `unknown_error`. The code is never inferred from the message.
pub open spec fn error_body_code(body: Option<ErrorBody>) -> Seq<char> {
    match body {
        None => "INTERNAL_ERROR"@,
        Some(b) => match b.code {
            Some(c) => c@,
            None => match b.error {
                Some(e) => e@,
                None => "unknown_error"@,
            },
        },
    }
}

/// The error message reported for a failed response: for a body that was
/// not a JSON error object, `HTTP {status}: response body was not valid
/// JSON`; otherwise its `detail`, else its `title`, else its `message`, else
/// `HTTP {status}`.
pub open spec fn error_body_message(body: Option<ErrorBody>, status: u16) -> Seq<char> {
    match body {
        None => "HTTP "@ + decimal(status as nat) + ": response body was not valid JSON"@,
        Some(b) => match b.detail {
            Some(d) => d@,
            None => match b.title {
                Some(t) => t@,
                None => match b.message {
                    Some(m) => m@,
                    None => "HTTP "@ + decimal(status as nat),
                },
            },
        },
    }
}

/// The code of a failed response is the body's own, never inferred from its
/// message: `code` when present, else `error`, else `unknown_error`, and
/// `INTERNAL_ERROR` when the body was not a JSON error object. Its message
/// is `detail`, else `title`, else `message`, else `HTTP {status}`.
pub proof fn lemma_error_body_fallbacks(body: Option<ErrorBody>, status: u16)
    ensures
        body is None ==> error_body_code(body) == "INTERNAL_ERROR"@,
        body is Some && body->0.code is Some ==> error_body_code(body) == body->0.code->0@,
        body is Some && body->0.code is None && body->0.error is Some ==> error_body_code(body) == body->0.error->0@,
        body is Some && body->0.code is None && body->0.error is None ==> error_body_code(body) == "unknown_error"@,
        body is Some && body->0.detail is Some ==> error_body_message(body, status) == body->0.detail->0@,
        body is Some && body->0.detail is None && body->0.title is Some ==> error_body_message(body, status) == body->0.title->0@,
        body is Some && body->0.detail is None && body->0.title is None && body->0.message is Some
            ==> error_body_message(body, status) == body->0.message->0@,
        body is Some && body->0.detail is None && body->0.title is None && body->0.message is None
            ==> error_body_message(body, status) == "HTTP "@ + decimal(status as nat),
        body is None ==> error_body_message(body, status) == "HTTP "@ + decimal(status as nat)
            + ": response body was not valid JSON"@,
{
}

/// `HTTP {status}` followed by `suffix`.
fn http_status_text(status: u16, suffix: &str) -> (s: String)
    ensures
        s@ == "HTTP "@ + decimal(status as nat) + suffix@,
{
    let mut s = "HTTP ".to_owned();
    push_decimal(&mut s, status as u64);
    s.append(suffix);
    s
}

/// Turn the decoded error body of a non-2xx response (`None` when the body
/// was not a JSON error object: an HTML error page, an empty body) into its
/// `(code, message)` pair.
pub fn error_code_and_message(body: Option<ErrorBody>, status: u16) -> (r: (String, String))
    ensures
        r.0@ == error_body_code(body),
        r.1@ == error_body_message(body, status),
{
    match body {
        None => ("INTERNAL_ERROR".to_owned(), http_status_text(status, ": response body was not valid JSON")),
        Some(b) => {
            let code = match b.code {
                Some(c) => c,
                None => match b.error {
                    Some(e) => e,
                    None => "unknown_error".to_owned(),
                },
            };
            let message = match b.detail {
                Some(d) => d,
                None => match b.title {
                    Some(t) => t,
                    None => match b.message {
                        Some(m) => m,
                        None => {
                            let t = http_status_text(status, "");
                            proof {
                                reveal_strlit("");
                                assert(t@ == "HTTP "@ + decimal(status as nat));
                            }
                            t
                        },
                    },
                },
            };
            (code, message)
        },
    }
}

/// Whether a response status is a success (`200..=299`).
pub fn is_success_status(status: u16) -> (r: bool)
    ensures
        r == (200 <= status && status <= 299),
{
    200 <= status && status <= 299
}

/// Whether a failed response with this status may be retried: 5xx and 429.
pub open spec fn retryable_status(status: u16) -> bool {
    status >= 500 || status == 429
}

/// Which failed responses are retried: every status from 500 up (any 5xx)
/// and 429, and no other — in particular no 4xx but 429.
pub proof fn lemma_retryable_statuses(status: u16)
    ensures
        retryable_status(status) == (status >= 500 || status == 429),
        500 <= status <= 599 ==> retryable_status(status),
        retryable_status(429),
        400 <= status <= 499 && status != 429 ==> !retryable_status(status),
        status < 400 ==> !retryable_status(status),
{
}

/// The failure a non-2xx response stands for: the most specific `Error` for
/// its status, carrying the body's code and message and the request id;
/// retryable for 5xx and 429, in which case a `Retry-After` header, when
/// present and usable, gives the delay before the next attempt.
pub fn failed_response(
    status: u16,
    retry_after_header: Option<&str>,
    body: Option<ErrorBody>,
    request_id: Option<String>,
) -> (f: AttemptFailure)
    ensures
        exists|code: String, message: String| #![trigger classified_error(status, code, message, request_id)]
            code@ == error_body_code(body) && message@ == error_body_message(body, status)
            && f.error == classified_error(status, code, message, request_id),
        f.retryable == retryable_status(status),
        f.retryable == (status >= 500 || status == 429),
        f.error.spec_status() == Some(status),
        f.error.spec_request_id() == opt_view(request_id),
        f.error.spec_code() == error_body_code(body),
        f.error.spec_message() == Some(error_body_message(body, status)),
        (f.error is Api) == !(status == 400 || status == 401 || status == 403 || status == 404 || status == 410
            || status == 422 || status == 429),
        f.retryable && retry_after_header is Some ==> retry_after_result(retry_after_header->0@, f.retry_after),
        !(f.retryable && retry_after_header is Some) ==> f.retry_after is None,
        f.retry_after matches Some(d) ==> duration_nanos(d) <= retry_after_cap_nanos(),
{
    let retryable = status >= 500 || status == 429;
    let retry_after = if retryable {
        match retry_after_header {
            Some(h) => parse_retry_after(h),
            None => None,
        }
    } else {
        None
    };
    let (code, message) = error_code_and_message(body, status);
    let ghost (c, m) = (code, message);
    let error = classify_api_error(status, code, message, request_id);
    assert(error == classified_error(status, c, m, request_id));
    AttemptFailure { error, retryable, retry_after }
}

/// The failure a transport error stands for: `Timeout` (with the attempt's
/// deadline) when the request timed out, otherwise `Connection` carrying the
/// error's description as both message and source. Always retryable, with
/// no server-supplied delay.
pub fn transport_failure(timed_out: bool, description: String, attempt_timeout: Duration) -> (f: AttemptFailure)
    ensures
        f.retryable,
        f.retry_after is None,
        timed_out ==> (f.error == (Error::Timeout { timeout: attempt_timeout })),
        !timed_out ==> (f.error matches Error::Connection { message, source } && message@ == description@ && source@ == description@),
{
    if timed_out {
        AttemptFailure { error: Error::Timeout { timeout: attempt_timeout }, retryable: true, retry_after: None }
    } else {
        let source = description.clone();
        AttemptFailure { error: Error::Connection { message: description, source }, retryable: true, retry_after: None }
    }
}

} // verus!
