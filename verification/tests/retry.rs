use std::time::Duration;

use poli_page::{Error, RequestEvent, ResponseEvent, RetryEvent};

#[test]
fn retry_event_clones_with_owned_reason() {
    let evt = RetryEvent {
        attempt: 2,
        delay: Duration::from_millis(500),
        reason: Error::Timeout {
            timeout: Duration::from_secs(60),
        },
    };
    let cloned = evt.clone();
    assert_eq!(cloned.attempt, 2);
    assert_eq!(cloned.delay, Duration::from_millis(500));
    assert!(matches!(cloned.reason, Error::Timeout { .. }));
}

#[test]
fn retry_event_carries_request_id_through_clone() {
    let evt = RetryEvent {
        attempt: 3,
        delay: Duration::from_millis(1000),
        reason: Error::Api {
            status: 503,
            code: "INTERNAL".into(),
            message: "boom".into(),
            request_id: Some("req_xyz".into()),
        },
    };
    let cloned = evt.clone();
    assert_eq!(cloned.reason.request_id(), Some("req_xyz"));
}

#[test]
fn retry_event_clone_drops_connection_source() {
    // The cloned reason loses the transport-error description.
    let err = Error::Connection {
        message: "dns".into(),
        source: "real source".into(),
    };
    let cloned = err.clone();
    // Both still display the message.
    assert!(cloned.to_string().contains("dns"));
    if let Error::Connection { source, .. } = &cloned {
        assert!(source.to_string().contains("dropped on clone"));
    } else {
        panic!("expected Connection");
    }
}

#[test]
fn request_event_carries_method_url_attempt() {
    let evt = RequestEvent {
        method: "POST".into(),
        url: "https://api.poli.page/v1/render/document".into(),
        attempt: 1,
    };
    let cloned = evt.clone();
    assert_eq!(cloned.method, "POST");
    assert_eq!(cloned.url, "https://api.poli.page/v1/render/document");
    assert_eq!(cloned.attempt, 1);
}

#[test]
fn response_event_carries_status_request_id_duration() {
    let evt = ResponseEvent {
        status: 200,
        request_id: Some("req_abc".into()),
        duration_ms: 42,
    };
    let cloned = evt.clone();
    assert_eq!(cloned.status, 200);
    assert_eq!(cloned.request_id.as_deref(), Some("req_abc"));
    assert_eq!(cloned.duration_ms, 42);
}

#[test]
fn response_event_request_id_is_optional() {
    let evt = ResponseEvent {
        status: 204,
        request_id: None,
        duration_ms: 0,
    };
    assert!(evt.request_id.is_none());
}

#[test]
fn connection_clone_marker_names_the_message() {
    let cloned = Error::Connection {
        message: "dns".into(),
        source: "real source".into(),
    }
    .clone();
    match cloned {
        Error::Connection { message, source } => {
            assert_eq!(message, "dns");
            assert_eq!(source, "(source dropped on clone): dns");
        }
        _ => panic!("expected Connection"),
    }
}

#[test]
fn retry_event_clone_keeps_attempt_delay_and_reason_fields() {
    let evt = RetryEvent {
        attempt: 4,
        delay: Duration::from_millis(2000),
        reason: Error::RateLimited {
            status: 429,
            code: "RATE_LIMITED".into(),
            message: "slow down".into(),
            request_id: Some("req_1".into()),
        },
    };
    let c = evt.clone();
    assert_eq!(c.attempt, 4);
    assert_eq!(c.delay, Duration::from_millis(2000));
    assert_eq!(c.reason.status(), Some(429));
    assert_eq!(c.reason.code(), "RATE_LIMITED");
    assert_eq!(c.reason.request_id(), Some("req_1"));
    assert_eq!(c.reason.to_string(), "rate limited (429): slow down");
}
