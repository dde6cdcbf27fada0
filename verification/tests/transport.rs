use std::time::Duration;

use poli_page::retry_policy::BackoffPlan;
use poli_page::transport::{
    attempt_timeout, failed_response, is_success_status, next_step, prepare_attempt, transport_failure,
    AttemptFailure, AttemptOutcome, ErrorBody, RetryPolicy, RetryStep,
};
use poli_page::config::ClientOptions;
use poli_page::request::HttpMethod;
use poli_page::Error;

fn policy(max_retries: u32) -> RetryPolicy {
    RetryPolicy {
        max_retries,
        retry_delay: Duration::from_millis(500),
    }
}

fn server_error() -> AttemptOutcome {
    AttemptOutcome::Failed(AttemptFailure {
        error: Error::Api {
            status: 503,
            code: "INTERNAL_ERROR".into(),
            message: "x".into(),
            request_id: None,
        },
        retryable: true,
        retry_after: None,
    })
}

/// Runs the loop's decisions over a scripted sequence of outcomes and
/// reports how many attempts were made, the retry events' attempt numbers
/// and the final result.
fn drive(p: &RetryPolicy, mut outcomes: Vec<AttemptOutcome>) -> (u32, Vec<u32>, Result<(), Error>) {
    outcomes.reverse();
    let mut attempt = 1u32;
    let mut retries = Vec::new();
    loop {
        let outcome = outcomes.pop().expect("script ran out");
        match next_step(p, attempt, outcome) {
            RetryStep::Done => return (attempt, retries, Ok(())),
            RetryStep::GiveUp(e) => return (attempt, retries, Err(e)),
            RetryStep::Retry { attempt: next, .. } => {
                retries.push(next);
                attempt = next;
            }
        }
    }
}

#[test]
fn default_budget_makes_three_attempts_on_persistent_503() {
    let (attempts, retries, result) = drive(
        &policy(2),
        vec![server_error(), server_error(), server_error()],
    );
    assert_eq!(attempts, 3);
    assert_eq!(retries, vec![2, 3]);
    assert_eq!(result.unwrap_err().status(), Some(503));
}

#[test]
fn zero_retries_disables_retrying() {
    let (attempts, retries, result) = drive(&policy(0), vec![server_error()]);
    assert_eq!(attempts, 1);
    assert!(retries.is_empty());
    assert!(result.is_err());
}

#[test]
fn success_after_a_retry_stops_the_loop() {
    let (attempts, retries, result) =
        drive(&policy(2), vec![server_error(), AttemptOutcome::Succeeded]);
    assert_eq!(attempts, 2);
    assert_eq!(retries, vec![2]);
    assert!(result.is_ok());
}

#[test]
fn non_retryable_failure_is_final() {
    let auth = failed_response(401, None, None, None);
    assert!(!auth.retryable);
    let (attempts, _, result) = drive(&policy(5), vec![AttemptOutcome::Failed(auth)]);
    assert_eq!(attempts, 1);
    assert!(result.unwrap_err().is_auth_error());
}

#[test]
fn retry_uses_server_delay_or_exponential_backoff() {
    let p = policy(3);
    let with_delay = AttemptOutcome::Failed(AttemptFailure {
        error: Error::Aborted,
        retryable: true,
        retry_after: Some(Duration::from_secs(2)),
    });
    match next_step(&p, 1, with_delay) {
        RetryStep::Retry { attempt, backoff, .. } => {
            assert_eq!(attempt, 2);
            assert_eq!(backoff, BackoffPlan::Exact(Duration::from_secs(2)));
        }
        other => panic!("unexpected {other:?}"),
    }
    match next_step(&p, 2, server_error()) {
        RetryStep::Retry { attempt, backoff, reason } => {
            assert_eq!(attempt, 3);
            assert_eq!(backoff, BackoffPlan::Jittered(Duration::from_millis(1000)));
            assert_eq!(reason.status(), Some(503));
        }
        other => panic!("unexpected {other:?}"),
    }
}

#[test]
fn failed_response_classifies_and_reads_retry_after() {
    let f = failed_response(
        429,
        Some("7"),
        Some(ErrorBody {
            code: Some("RATE_LIMITED".into()),
            detail: None,
            title: None,
            message: Some("slow down".into()),
            error: None,
        }),
        Some("req_9".into()),
    );
    assert!(f.retryable);
    assert_eq!(f.retry_after, Some(Duration::from_secs(7)));
    assert!(f.error.is_rate_limit_error());
    assert_eq!(f.error.code(), "RATE_LIMITED");
    assert_eq!(f.error.request_id(), Some("req_9"));
    assert_eq!(f.error.to_string(), "rate limited (429): slow down");

    // Retry-After is ignored when the status is not retryable.
    let g = failed_response(400, Some("7"), None, None);
    assert!(!g.retryable);
    assert_eq!(g.retry_after, None);
    assert!(g.error.is_validation_error());
    assert_eq!(g.error.code(), "INTERNAL_ERROR");

    let h = failed_response(502, None, None, None);
    assert!(h.retryable);
    assert_eq!(h.retry_after, None);
    assert!(matches!(h.error, Error::Api { status: 502, .. }));
}

#[test]
fn success_statuses() {
    assert!(is_success_status(200));
    assert!(is_success_status(204));
    assert!(is_success_status(299));
    assert!(!is_success_status(199));
    assert!(!is_success_status(300));
    assert!(!is_success_status(404));
}

#[test]
fn transport_failures_are_retryable() {
    let t = transport_failure(true, "deadline".into(), Duration::from_secs(3));
    assert!(t.retryable);
    assert!(matches!(t.error, Error::Timeout { timeout } if timeout == Duration::from_secs(3)));
    let c = transport_failure(false, "connection refused".into(), Duration::from_secs(3));
    assert!(c.retryable);
    assert_eq!(c.retry_after, None);
    match c.error {
        Error::Connection { message, source } => {
            assert_eq!(message, "connection refused");
            assert_eq!(source, "connection refused");
        }
        other => panic!("unexpected {other:?}"),
    }
}

#[test]
fn attempt_timeout_prefers_the_call_override() {
    assert_eq!(
        attempt_timeout(Some(Duration::from_secs(15)), Duration::from_secs(60)),
        Duration::from_secs(15)
    );
    assert_eq!(attempt_timeout(None, Duration::from_secs(60)), Duration::from_secs(60));
    assert!(!AttemptFailure::fatal(Error::Aborted).retryable);
}

fn config() -> poli_page::config::ClientConfig {
    let mut o = ClientOptions::new();
    o.api_key = Some("pp_test_x".into());
    o.base_url = Some("https://api.poli.page/prefix/".into());
    o.resolve("ua/1".into()).unwrap()
}

#[test]
fn every_attempt_of_a_post_carries_the_same_key() {
    let c = config();
    let first = prepare_attempt(&c, HttpMethod::Post, "/v1/render", Some("key-1"), None).unwrap();
    let later = prepare_attempt(&c, HttpMethod::Post, "/v1/render", Some("key-1"), None).unwrap();
    assert_eq!(first.url, "https://api.poli.page/prefix/v1/render");
    assert_eq!(first.url, later.url);
    assert_eq!(first.headers.get("idempotency-key").unwrap(), "key-1");
    assert_eq!(later.headers.get("idempotency-key").unwrap(), "key-1");
    assert_eq!(first.headers, later.headers);
    assert_eq!(first.timeout, Duration::from_secs(60));
}

#[test]
fn prepared_attempt_uses_the_call_timeout_and_plain_get_headers() {
    let c = config();
    let p = prepare_attempt(&c, HttpMethod::Get, "/v1/documents/a", None, Some(Duration::from_secs(5))).unwrap();
    assert_eq!(p.timeout, Duration::from_secs(5));
    assert!(p.headers.get("idempotency-key").is_none());
    assert!(p.headers.get("content-type").is_none());
    assert_eq!(p.headers.get("authorization").unwrap(), "Bearer pp_test_x");
}

#[test]
fn prepared_attempt_reports_an_unbuildable_url() {
    let mut c = config();
    c.base_url = "not a url".into();
    let err = prepare_attempt(&c, HttpMethod::Get, "/x", None, None).unwrap_err();
    assert_eq!(
        err.to_string(),
        "invalid options: could not build url for /x: relative URL without a base"
    );
}
