use orderx_core::error::{CoreError, HttpError, HttpErrorKind};

fn http(kind: HttpErrorKind, status: Option<u16>) -> CoreError {
    CoreError::Http(HttpError { kind, status, message: "boom".to_string() })
}

#[test]
fn retryable_statuses() {
    for s in [429u16, 500, 502, 503, 599] {
        assert!(CoreError::api_status(s, "").is_retryable(), "{}", s);
    }
    for s in [400u16, 401, 403, 404, 600, 200] {
        assert!(!CoreError::api_status(s, "").is_retryable(), "{}", s);
    }
}

#[test]
fn retryable_http_failures() {
    assert!(http(HttpErrorKind::Connect, None).is_retryable());
    assert!(http(HttpErrorKind::Timeout, None).is_retryable());
    assert!(http(HttpErrorKind::Request, None).is_retryable());
    assert!(http(HttpErrorKind::Body, None).is_retryable());
    assert!(!http(HttpErrorKind::Decode, None).is_retryable());
    assert!(!http(HttpErrorKind::Builder, None).is_retryable());
    assert!(http(HttpErrorKind::Status, Some(503)).is_retryable());
    assert!(!http(HttpErrorKind::Status, Some(404)).is_retryable());
    assert!(!CoreError::Config("x".into()).is_retryable());
    assert!(!CoreError::QuestDb("x".into()).is_retryable());
    assert!(!CoreError::Validation("x".into()).is_retryable());
    assert!(!CoreError::Serialization("x".into()).is_retryable());
    assert!(!CoreError::ExternalApi("x".into()).is_retryable());
}

#[test]
fn error_messages() {
    assert_eq!(CoreError::Config("m".into()).message(), "Configuration error: m");
    assert_eq!(CoreError::QuestDb("m".into()).message(), "QuestDB operation failed: m");
    assert_eq!(http(HttpErrorKind::Other, None).message(), "HTTP client error: boom");
    assert_eq!(CoreError::Validation("m".into()).message(), "Validation error: m");
    assert_eq!(CoreError::Serialization("m".into()).message(), "Serialization error: m");
    assert_eq!(CoreError::ExternalApi("m".into()).message(), "External API error: m");
    assert_eq!(CoreError::api_status(503, "busy").message(), "External API error: status 503: busy");
}

#[test]
fn api_status_error_bodies() {
    assert_eq!(
        CoreError::api_status(404, ""),
        CoreError::ExternalApiStatus { status: 404, message: "empty response body".to_string() }
    );
    let long: String = "é".repeat(300);
    match CoreError::api_status(500, &long) {
        CoreError::ExternalApiStatus { status, message } => {
            assert_eq!(status, 500);
            assert_eq!(message.chars().count(), 240);
            assert_eq!(message, "é".repeat(240));
        }
        other => panic!("{:?}", other),
    }
    let exact: String = "a".repeat(240);
    assert_eq!(CoreError::api_status(500, &exact), CoreError::ExternalApiStatus { status: 500, message: exact.clone() });
}
