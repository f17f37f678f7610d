use elevenlabs_ttv::text::to_decimal;
use elevenlabs_ttv::ElevenLabsTTVError;

fn status_error(status: u16, body: &'static str) -> reqwest::Error {
    let response = http::Response::builder().status(status).body(body).unwrap();
    reqwest::Response::from(response).error_for_status().unwrap_err()
}

fn undecodable() -> reqwest::Error {
    let response = http::Response::builder().status(200).body("not json").unwrap();
    let runtime = tokio::runtime::Builder::new_current_thread().build().unwrap();
    runtime
        .block_on(reqwest::Response::from(response).json::<serde_json::Value>())
        .unwrap_err()
}

#[test]
fn test_error_display() {
    let error = ElevenLabsTTVError::ValidationError("Invalid voice ID".to_string());
    let display = error.to_string();
    assert!(display.contains("Validation error"));
    assert!(display.contains("Invalid voice ID"));
}

#[test]
fn status_401_is_an_authentication_error() {
    let error = ElevenLabsTTVError::from_status(401, None, "body".to_string());
    assert!(matches!(error, ElevenLabsTTVError::AuthenticationError(ref m) if m == "Invalid API key"));
    let error = ElevenLabsTTVError::from_status(401, Some(3), String::new());
    assert!(matches!(error, ElevenLabsTTVError::AuthenticationError(ref m) if m == "Invalid API key"));
}

#[test]
fn status_402_is_an_exceeded_quota() {
    let error = ElevenLabsTTVError::from_status(402, None, "body".to_string());
    assert!(
        matches!(error, ElevenLabsTTVError::QuotaExceededError(ref m) if m == "Insufficient credits")
    );
}

#[test]
fn status_429_is_a_rate_limit() {
    let error = ElevenLabsTTVError::from_status(429, None, "Too many requests".to_string());
    match error {
        ElevenLabsTTVError::RateLimitError { retry_after, message } => {
            assert_eq!(retry_after, None);
            assert_eq!(message, "Too many requests");
        }
        other => panic!("unexpected error: {:?}", other),
    }
    let error = ElevenLabsTTVError::from_status(429, Some(30), "slow down".to_string());
    match error {
        ElevenLabsTTVError::RateLimitError { retry_after, message } => {
            assert_eq!(retry_after, Some(30));
            assert_eq!(message, "Too many requests");
        }
        other => panic!("unexpected error: {:?}", other),
    }
}

#[test]
fn other_statuses_are_api_errors_with_status_and_text() {
    for status in [400u16, 403, 404, 422, 428, 430, 500, 503, 599, 300, 100, 0, 65535] {
        let error = ElevenLabsTTVError::from_status(status, Some(9), "what went wrong".to_string());
        match error {
            ElevenLabsTTVError::ApiError { status: got, message } => {
                assert_eq!(got, status);
                assert_eq!(message, "what went wrong");
            }
            other => panic!("unexpected error: {:?}", other),
        }
    }
}

#[test]
fn classification_is_repeatable() {
    for status in [401u16, 402, 429, 500] {
        let first = ElevenLabsTTVError::from_status(status, Some(1), "t".to_string()).to_string();
        let second = ElevenLabsTTVError::from_status(status, Some(1), "t".to_string()).to_string();
        assert_eq!(first, second);
    }
}

#[test]
fn exchange_without_status_is_a_request_error() {
    let cause = undecodable();
    let text = cause.to_string();
    let error = ElevenLabsTTVError::classify(None, Some(5), "ignored".to_string(), cause);
    match error {
        ElevenLabsTTVError::RequestError(inner) => assert_eq!(inner.to_string(), text),
        other => panic!("unexpected error: {:?}", other),
    }
}

#[test]
fn exchange_with_status_is_classified_by_it() {
    let error = ElevenLabsTTVError::classify(Some(401), None, "t".to_string(), undecodable());
    assert!(matches!(error, ElevenLabsTTVError::AuthenticationError(_)));
    let error = ElevenLabsTTVError::classify(Some(402), None, "t".to_string(), undecodable());
    assert!(matches!(error, ElevenLabsTTVError::QuotaExceededError(_)));
    let error = ElevenLabsTTVError::classify(Some(429), Some(7), "t".to_string(), undecodable());
    assert!(matches!(
        error,
        ElevenLabsTTVError::RateLimitError { retry_after: Some(7), .. }
    ));
    let error = ElevenLabsTTVError::classify(Some(418), Some(7), "t".to_string(), undecodable());
    assert!(matches!(
        error,
        ElevenLabsTTVError::ApiError { status: 418, ref message } if message == "t"
    ));
}

#[test]
fn transport_error_with_status_is_classified_by_it() {
    let error = ElevenLabsTTVError::from(status_error(401, ""));
    assert!(matches!(error, ElevenLabsTTVError::AuthenticationError(ref m) if m == "Invalid API key"));

    let error = ElevenLabsTTVError::from(status_error(402, ""));
    assert!(
        matches!(error, ElevenLabsTTVError::QuotaExceededError(ref m) if m == "Insufficient credits")
    );

    let error = ElevenLabsTTVError::from(status_error(429, "Too many requests"));
    match error {
        ElevenLabsTTVError::RateLimitError { retry_after, message } => {
            assert_eq!(retry_after, None);
            assert_eq!(message, "Too many requests");
        }
        other => panic!("unexpected error: {:?}", other),
    }
}

#[test]
fn transport_error_with_another_status_carries_its_text() {
    let cause = status_error(500, "boom");
    let text = cause.to_string();
    assert!(text.contains("500"));
    match ElevenLabsTTVError::from(cause) {
        ElevenLabsTTVError::ApiError { status, message } => {
            assert_eq!(status, 500);
            assert_eq!(message, text);
        }
        other => panic!("unexpected error: {:?}", other),
    }
}

#[test]
fn transport_error_without_status_is_a_request_error() {
    let cause = undecodable();
    assert_eq!(cause.status(), None);
    let error = ElevenLabsTTVError::from(cause);
    match error {
        ElevenLabsTTVError::RequestError(inner) => assert!(inner.is_decode()),
        other => panic!("unexpected error: {:?}", other),
    }
}

#[test]
fn each_error_says_what_it_is() {
    assert_eq!(
        ElevenLabsTTVError::ApiError { status: 404, message: "Not found".to_string() }.to_string(),
        "API error (404): Not found"
    );
    assert_eq!(
        ElevenLabsTTVError::ApiError { status: 0, message: String::new() }.to_string(),
        "API error (0): "
    );
    assert_eq!(
        ElevenLabsTTVError::ApiError { status: 65535, message: "x".to_string() }.to_string(),
        "API error (65535): x"
    );
    assert_eq!(
        ElevenLabsTTVError::AuthenticationError("Invalid API key".to_string()).to_string(),
        "Authentication failed: Invalid API key"
    );
    assert_eq!(
        ElevenLabsTTVError::RateLimitError {
            retry_after: Some(30),
            message: "Too many requests".to_string()
        }
        .to_string(),
        "Rate limit exceeded (retry in 30s): Too many requests"
    );
    assert_eq!(
        ElevenLabsTTVError::RateLimitError {
            retry_after: Some(u64::MAX),
            message: "m".to_string()
        }
        .to_string(),
        "Rate limit exceeded (retry in 18446744073709551615s): m"
    );
    assert_eq!(
        ElevenLabsTTVError::RateLimitError {
            retry_after: None,
            message: "Too many requests".to_string()
        }
        .to_string(),
        "Rate limit exceeded: Too many requests"
    );
    assert_eq!(
        ElevenLabsTTVError::QuotaExceededError("Insufficient credits".to_string()).to_string(),
        "Quota exceeded: Insufficient credits"
    );
    assert_eq!(
        ElevenLabsTTVError::ValidationError("Invalid voice ID".to_string()).to_string(),
        "Validation error: Invalid voice ID"
    );
}

#[test]
fn wrapping_errors_end_with_the_text_of_what_they_wrap() {
    let cause = undecodable();
    let text = cause.to_string();
    assert!(!text.is_empty());
    assert_eq!(
        ElevenLabsTTVError::RequestError(cause).to_string(),
        format!("Request failed: {}", text)
    );
    let cause = undecodable();
    let text = cause.to_string();
    assert_eq!(
        ElevenLabsTTVError::ParseError(cause).to_string(),
        format!("Failed to parse response: {}", text)
    );
}

#[test]
fn render_takes_the_text_of_the_cause() {
    assert_eq!(
        ElevenLabsTTVError::RequestError(undecodable()).render("connection refused"),
        "Request failed: connection refused"
    );
    assert_eq!(
        ElevenLabsTTVError::ParseError(undecodable()).render("expected value"),
        "Failed to parse response: expected value"
    );
    assert_eq!(
        ElevenLabsTTVError::ValidationError("v".to_string()).render("unused"),
        "Validation error: v"
    );
}

#[test]
fn decimal_text_of_numbers() {
    assert_eq!(to_decimal(0), "0");
    assert_eq!(to_decimal(7), "7");
    assert_eq!(to_decimal(10), "10");
    assert_eq!(to_decimal(429), "429");
    assert_eq!(to_decimal(1_000_000), "1000000");
    assert_eq!(to_decimal(u64::MAX), "18446744073709551615");
    for n in [0u64, 1, 9, 10, 11, 99, 100, 101, 12345, 9_999_999_999] {
        assert_eq!(to_decimal(n), n.to_string());
    }
}

#[test]
fn push_decimal_appends() {
    let mut out = String::from("n=");
    elevenlabs_ttv::text::push_decimal(&mut out, 120);
    assert_eq!(out, "n=120");
}
