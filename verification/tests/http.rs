use std::time::Duration;

use http::{header, HeaderMap, HeaderValue};
use poli_page::config::HEADER_IDEMPOTENCY_KEY;
use poli_page::request::{build_headers, build_url, HttpMethod};
use poli_page::retry_policy::{
    exponential_backoff, parse_retry_after, parse_retry_after_at, plan_backoff, BackoffPlan,
};
use poli_page::transport::{error_code_and_message, ErrorBody};

// --- parse_retry_after ---

// "Sun, 06 Nov 1994 08:49:37 GMT" is 784111777 s after the UNIX epoch.
const DATE_1994: &str = "Sun, 06 Nov 1994 08:49:37 GMT";
const SECS_1994: u128 = 784_111_777;

#[test]
fn parse_retry_after_at_measures_a_date_against_the_given_clock() {
    let now = (SECS_1994 - 7) * 1_000_000_000 + 250_000_000;
    assert_eq!(parse_retry_after_at(DATE_1994, now), Some(Duration::from_millis(6_750)));
}

#[test]
fn parse_retry_after_at_caps_and_floors_dates() {
    let long_before = (SECS_1994 - 3_600) * 1_000_000_000;
    assert_eq!(parse_retry_after_at(DATE_1994, long_before), Some(Duration::from_secs(30)));
    let after = (SECS_1994 + 1) * 1_000_000_000;
    assert_eq!(parse_retry_after_at(DATE_1994, after), Some(Duration::ZERO));
}

#[test]
fn parse_retry_after_at_ignores_the_clock_for_integers_and_junk() {
    assert_eq!(parse_retry_after_at("12", 0), Some(Duration::from_secs(12)));
    assert_eq!(parse_retry_after_at("-3", 5), Some(Duration::ZERO));
    assert_eq!(parse_retry_after_at("", 5), None);
    assert_eq!(parse_retry_after_at("soon", 5), None);
}

#[test]
fn parse_retry_after_returns_none_for_empty_string() {
    assert_eq!(parse_retry_after(""), None);
}

#[test]
fn parse_retry_after_returns_zero_for_zero_string() {
    assert_eq!(parse_retry_after("0"), Some(Duration::ZERO));
}

#[test]
fn parse_retry_after_returns_5s_for_five_string() {
    assert_eq!(parse_retry_after("5"), Some(Duration::from_secs(5)));
}

#[test]
fn parse_retry_after_caps_large_second_values_at_30s() {
    assert_eq!(parse_retry_after("999"), Some(Duration::from_secs(30)));
    assert_eq!(parse_retry_after("100000"), Some(Duration::from_secs(30)));
}

#[test]
fn parse_retry_after_returns_none_for_non_numeric_non_date() {
    assert_eq!(parse_retry_after("abc"), None);
    assert_eq!(parse_retry_after("not a date"), None);
}

#[test]
fn parse_retry_after_returns_zero_for_past_http_date() {
    // 60s in the past — rendered as an RFC 7231 IMF-fixdate.
    let past = httpdate::fmt_http_date(std::time::SystemTime::now() - Duration::from_secs(60));
    assert_eq!(parse_retry_after(&past), Some(Duration::ZERO));
}

#[test]
fn parse_retry_after_returns_delta_for_future_http_date() {
    // 5s in the future — expect roughly 5s back, clamped above 3s.
    let future = httpdate::fmt_http_date(std::time::SystemTime::now() + Duration::from_secs(5));
    let result = parse_retry_after(&future).expect("should parse");
    assert!(
        result > Duration::from_secs(3) && result <= Duration::from_secs(5),
        "result was {result:?}",
    );
}

#[test]
fn parse_retry_after_caps_far_future_http_date_at_30s() {
    let far_future =
        httpdate::fmt_http_date(std::time::SystemTime::now() + Duration::from_secs(60 * 60));
    assert_eq!(
        parse_retry_after(&far_future),
        Some(Duration::from_secs(30))
    );
}

#[test]
fn parse_retry_after_treats_negative_and_signed_integers() {
    assert_eq!(parse_retry_after("-5"), Some(Duration::ZERO));
    assert_eq!(parse_retry_after("+7"), Some(Duration::from_secs(7)));
    assert_eq!(parse_retry_after("30"), Some(Duration::from_secs(30)));
    assert_eq!(parse_retry_after("29"), Some(Duration::from_secs(29)));
    assert_eq!(parse_retry_after(" 5"), None);
}

// --- backoff ---
//
// The jitter factor is a float, applied outside the verified library: the
// library plans the wait (a server's delay verbatim, or the un-jittered
// exponential backoff) and the caller scales the latter by the factor.

const BASE: Duration = Duration::from_millis(500);

fn compute_backoff_with_jitter(attempt: u32, base_delay: Duration, jitter_factor: f64) -> Duration {
    exponential_backoff(attempt, base_delay).mul_f64(jitter_factor)
}

fn compute_backoff(attempt: u32, base_delay: Duration, retry_after: Option<Duration>) -> Duration {
    match plan_backoff(attempt, base_delay, retry_after) {
        BackoffPlan::Exact(d) => d,
        BackoffPlan::Jittered(d) => d.mul_f64(0.5 + rand::random::<f64>()),
    }
}

#[test]
fn compute_backoff_returns_retry_after_as_is_when_some() {
    assert_eq!(
        compute_backoff(1, BASE, Some(Duration::from_secs(1))),
        Duration::from_secs(1),
    );
    assert_eq!(
        compute_backoff(3, BASE, Some(Duration::from_millis(250))),
        Duration::from_millis(250),
    );
}

#[test]
fn compute_backoff_returns_zero_when_retry_after_is_zero() {
    assert_eq!(
        compute_backoff(1, BASE, Some(Duration::ZERO)),
        Duration::ZERO,
    );
}

#[test]
fn compute_backoff_with_jitter_applies_exponential_backoff() {
    assert_eq!(
        compute_backoff_with_jitter(1, BASE, 0.5),
        Duration::from_millis(250), // 500 * 1 * 0.5
    );
    assert_eq!(
        compute_backoff_with_jitter(2, BASE, 0.5),
        Duration::from_millis(500), // 500 * 2 * 0.5
    );
    assert_eq!(
        compute_backoff_with_jitter(3, BASE, 0.5),
        Duration::from_millis(1000), // 500 * 4 * 0.5
    );
}

#[test]
fn compute_backoff_with_jitter_applies_max_jitter() {
    let result = compute_backoff_with_jitter(1, BASE, 1.499);
    let ms = result.as_millis() as f64;
    // 500 * 1 * 1.499 = 749.5
    assert!((740.0..=760.0).contains(&ms), "result was {ms}ms");
}

#[test]
fn compute_backoff_jitter_factor_stays_within_bounds_over_200_samples() {
    for _ in 0..200 {
        let d = compute_backoff(1, Duration::from_secs(1), None);
        assert!(d >= Duration::from_millis(500), "delay was {d:?}");
        assert!(d <= Duration::from_millis(1500), "delay was {d:?}");
    }
}

#[test]
fn exponential_backoff_doubles_then_saturates() {
    assert_eq!(exponential_backoff(1, BASE), Duration::from_millis(500));
    assert_eq!(exponential_backoff(2, BASE), Duration::from_millis(1000));
    assert_eq!(exponential_backoff(4, BASE), Duration::from_millis(4000));
    assert_eq!(exponential_backoff(0, BASE), Duration::from_millis(500));
    assert_eq!(exponential_backoff(33, BASE), BASE * u32::MAX);
    assert_eq!(exponential_backoff(u32::MAX, Duration::MAX), Duration::MAX);
    assert_eq!(
        plan_backoff(3, BASE, None),
        BackoffPlan::Jittered(Duration::from_millis(2000))
    );
}

// --- error body ---
//
// The body is decoded as JSON outside the verified library; these tests
// decode it with `serde_json::Value` and hand the fields over.

fn field(m: &serde_json::Map<String, serde_json::Value>, key: &str) -> Option<String> {
    m.get(key).and_then(|v| v.as_str()).map(str::to_owned)
}

fn parse_error_body(body: &[u8], status: u16) -> (String, String) {
    let decoded = match serde_json::from_slice::<serde_json::Value>(body) {
        Ok(serde_json::Value::Object(m)) => Some(ErrorBody {
            code: field(&m, "code"),
            detail: field(&m, "detail"),
            title: field(&m, "title"),
            message: field(&m, "message"),
            error: field(&m, "error"),
        }),
        _ => None,
    };
    error_code_and_message(decoded, status)
}

#[test]
fn parse_error_body_extracts_code_and_message_from_complete_json() {
    let (code, message) = parse_error_body(
        br#"{"code":"VALIDATION_ERROR","message":"data is required"}"#,
        400,
    );
    assert_eq!(code, "VALIDATION_ERROR");
    assert_eq!(message, "data is required");
}

#[test]
fn parse_error_body_code_stays_unknown_when_only_message_present() {
    let (code, message) = parse_error_body(br#"{"message":"something broke"}"#, 400);
    assert_eq!(code, "unknown_error");
    assert_eq!(message, "something broke");
}

#[test]
fn parse_error_body_falls_back_to_error_field_as_code() {
    let (code, message) = parse_error_body(br#"{"error":"oops"}"#, 400);
    assert_eq!(code, "oops");
    assert_eq!(message, "HTTP 400");
}

#[test]
fn parse_error_body_returns_unknown_error_when_json_has_no_recognised_fields() {
    let (code, message) = parse_error_body(b"{}", 400);
    assert_eq!(code, "unknown_error");
    assert_eq!(message, "HTTP 400");
}

#[test]
fn parse_error_body_returns_internal_error_for_non_json_body() {
    let (code, message) = parse_error_body(b"not json", 502);
    assert_eq!(code, "INTERNAL_ERROR");
    assert_eq!(message, "HTTP 502: response body was not valid JSON");
}

#[test]
fn parse_error_body_uses_rfc7807_detail_as_message() {
    let (code, message) = parse_error_body(
        br#"{"code":"authentication_failed","detail":"Forbidden","title":"Authentication failed"}"#,
        401,
    );
    assert_eq!(code, "authentication_failed");
    assert_eq!(message, "Forbidden");
}

#[test]
fn parse_error_body_falls_back_to_title_when_detail_absent() {
    let (code, message) =
        parse_error_body(br#"{"code":"forbidden","title":"Access denied"}"#, 403);
    assert_eq!(code, "forbidden");
    assert_eq!(message, "Access denied");
}

#[test]
fn parse_error_body_does_not_synthesise_api_error_prefix() {
    let (_, message) = parse_error_body(br#"{"code":"THUMBNAILS_NOT_AVAILABLE"}"#, 403);
    assert!(!message.contains("API error"), "message was {message}");
    assert_eq!(message, "HTTP 403");
}

#[test]
fn parse_error_body_returns_internal_error_for_html_error_page() {
    let (code, message) = parse_error_body(b"<html>upstream gone</html>", 502);
    assert_eq!(code, "INTERNAL_ERROR");
    assert!(message.contains("502"), "message was {message}");
}

#[test]
fn parse_error_body_returns_internal_error_for_empty_body() {
    let (code, _) = parse_error_body(b"", 500);
    assert_eq!(code, "INTERNAL_ERROR");
}

// --- build_headers ---

const UA: &str = "poli-page-sdk-rust/1.0.0";

fn get(h: &HeaderMap, name: impl header::AsHeaderName) -> Option<&HeaderValue> {
    h.get(name)
}

#[test]
fn build_headers_always_sets_accept_application_json() {
    let h = build_headers(&HttpMethod::Post, "pp_test_x", Some("idem-1"), UA);
    assert_eq!(get(&h, header::ACCEPT).unwrap(), "application/json");
}

#[test]
fn build_headers_post_sets_content_type_application_json() {
    let h = build_headers(&HttpMethod::Post, "pp_test_x", Some("idem-1"), UA);
    assert_eq!(get(&h, header::CONTENT_TYPE).unwrap(), "application/json");
}

#[test]
fn build_headers_sets_authorization_with_bearer_prefix() {
    let h = build_headers(&HttpMethod::Post, "pp_test_xyz", Some("idem-1"), UA);
    assert_eq!(
        get(&h, header::AUTHORIZATION).unwrap(),
        "Bearer pp_test_xyz"
    );
}

#[test]
fn build_headers_sets_user_agent_verbatim() {
    let h = build_headers(
        &HttpMethod::Post,
        "pp_test_x",
        Some("idem-1"),
        "custom-ua/9.9.9",
    );
    assert_eq!(get(&h, header::USER_AGENT).unwrap(), "custom-ua/9.9.9");
}

#[test]
fn build_headers_sets_idempotency_key_from_arg_when_post() {
    let h = build_headers(&HttpMethod::Post, "pp_test_x", Some("idem-abc-123"), UA);
    assert_eq!(get(&h, HEADER_IDEMPOTENCY_KEY).unwrap(), "idem-abc-123");
}

#[test]
fn build_headers_get_omits_content_type_and_idempotency_key() {
    let h = build_headers(&HttpMethod::Get, "pp_test_x", None, UA);
    assert!(get(&h, header::CONTENT_TYPE).is_none());
    assert!(get(&h, HEADER_IDEMPOTENCY_KEY).is_none());
    // auth + UA + Accept still present
    assert_eq!(get(&h, header::AUTHORIZATION).unwrap(), "Bearer pp_test_x");
    assert_eq!(get(&h, header::USER_AGENT).unwrap(), UA);
    assert_eq!(get(&h, header::ACCEPT).unwrap(), "application/json");
}

#[test]
fn build_headers_delete_omits_content_type_and_idempotency_key() {
    let h = build_headers(&HttpMethod::Delete, "pp_test_x", None, UA);
    assert!(get(&h, header::CONTENT_TYPE).is_none());
    assert!(get(&h, HEADER_IDEMPOTENCY_KEY).is_none());
}

#[test]
fn build_headers_post_with_no_idempotency_key_still_omits_it() {
    let h = build_headers(&HttpMethod::Post, "pp_test_x", None, UA);
    assert!(get(&h, HEADER_IDEMPOTENCY_KEY).is_none());
    assert_eq!(get(&h, header::CONTENT_TYPE).unwrap(), "application/json");
}

#[test]
fn build_headers_leaves_out_values_that_cannot_be_headers() {
    let h = build_headers(&HttpMethod::Post, "bad\nkey", Some("idem\u{7f}"), UA);
    assert!(get(&h, header::AUTHORIZATION).is_none());
    assert!(get(&h, HEADER_IDEMPOTENCY_KEY).is_none());
    assert_eq!(get(&h, header::USER_AGENT).unwrap(), UA);
    assert_eq!(h.len(), 3);
}

#[test]
fn http_method_names() {
    assert_eq!(HttpMethod::Get.as_str(), "GET");
    assert_eq!(HttpMethod::Post.as_str(), "POST");
    assert_eq!(HttpMethod::Delete.as_str(), "DELETE");
}

// --- build_url ---
//
// The base is given as the serialization of a parsed URL.

fn base(s: &str) -> String {
    url::Url::parse(s).expect("test base url is valid").to_string()
}

#[test]
fn build_url_joins_default_base_and_path() {
    let u = build_url(&base("https://api.poli.page"), "/v1/render").unwrap();
    assert_eq!(u.as_str(), "https://api.poli.page/v1/render");
}

#[test]
fn build_url_strips_trailing_slash_on_base_to_avoid_double_slash() {
    let u = build_url(&base("https://api.poli.page/"), "/v1/render").unwrap();
    assert_eq!(u.as_str(), "https://api.poli.page/v1/render");
}

#[test]
fn build_url_preserves_base_path_prefix() {
    let u = build_url(&base("https://gw.example.com/poli"), "/v1/render").unwrap();
    assert_eq!(u.as_str(), "https://gw.example.com/poli/v1/render");
}

#[test]
fn build_url_preserves_url_encoded_path_segments() {
    let u = build_url(
        &base("https://api.poli.page"),
        "/v1/documents/doc%20with%20space",
    )
    .unwrap();
    assert_eq!(
        u.as_str(),
        "https://api.poli.page/v1/documents/doc%20with%20space",
    );
}

#[test]
fn build_url_handles_path_with_query_string() {
    let u = build_url(&base("https://api.poli.page"), "/v1/render?stream=1").unwrap();
    assert_eq!(u.as_str(), "https://api.poli.page/v1/render?stream=1");
}

#[test]
fn build_url_reports_unparseable_urls() {
    assert!(build_url("not a url", "/v1/render").is_err());
    assert_eq!(
        poli_page::request::request_url("not a url", "/v1/render")
            .unwrap_err()
            .to_string(),
        "invalid options: could not build url for /v1/render: relative URL without a base"
    );
    // The parser normalizes what it is given.
    assert_eq!(
        build_url("HTTPS://API.POLI.PAGE//", "/x").unwrap(),
        "https://api.poli.page/x"
    );
}
