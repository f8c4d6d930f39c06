use doorpasses::auth::{authenticate, sign};
use doorpasses::http_client::HttpClient;
use doorpasses::DoorPassesError;

#[test]
fn rate_limit_is_its_own_error() {
    assert!(matches!(
        HttpClient::handle_response(429, "{\"message\":\"slow down\"}"),
        Err(DoorPassesError::RateLimitExceeded)
    ));
    assert!(matches!(
        HttpClient::handle_response(429, "not json"),
        Err(DoorPassesError::RateLimitExceeded)
    ));
}

#[test]
fn malformed_body_on_success_is_a_serialization_error() {
    assert!(matches!(
        HttpClient::handle_response(200, "{not json"),
        Err(DoorPassesError::SerializationError(_))
    ));
    assert!(matches!(
        HttpClient::handle_response(200, ""),
        Err(DoorPassesError::SerializationError(_))
    ));
}

#[test]
fn success_gives_the_document() {
    match HttpClient::handle_response(200, "{\"status\":\"ok\"}") {
        Ok(document) => assert_eq!(document["status"], "ok"),
        Err(_) => panic!("expected a document"),
    }
    match HttpClient::handle_response(200, "{\"a\":[1,{\"b\":null}]}") {
        Ok(document) => {
            let again: serde_json::Value =
                serde_json::from_str("{\"a\":[1,{\"b\":null}]}").expect("a document");
            assert_eq!(document, again);
            assert!(!document.is_null());
        }
        Err(_) => panic!("expected a document"),
    }
    match HttpClient::handle_response(299, "[]") {
        Ok(document) => assert_eq!(document.as_array().map(|items| items.len()), Some(0)),
        Err(_) => panic!("expected a document"),
    }
}

#[test]
fn unauthorized_is_an_auth_error_with_the_server_message() {
    match HttpClient::handle_response(401, "{\"message\":\"bad signature\"}") {
        Err(DoorPassesError::AuthError(msg)) => assert_eq!(msg, "bad signature"),
        _ => panic!("expected AuthError"),
    }
}

#[test]
fn missing_entity_is_not_found() {
    match HttpClient::handle_response(404, "{\"message\":\"no such pass\"}") {
        Err(DoorPassesError::NotFound(msg)) => assert_eq!(msg, "no such pass"),
        _ => panic!("expected NotFound"),
    }
}

#[test]
fn other_statuses_are_api_errors_with_status_and_message() {
    match HttpClient::handle_response(500, "{\"message\":\"boom\",\"code\":7}") {
        Err(DoorPassesError::ApiError { status, message }) => {
            assert_eq!(status, 500);
            assert_eq!(message, "boom");
        }
        _ => panic!("expected ApiError"),
    }
    match HttpClient::handle_response(302, "moved") {
        Err(DoorPassesError::ApiError { status, message }) => {
            assert_eq!(status, 302);
            assert_eq!(message, "moved");
        }
        _ => panic!("expected ApiError"),
    }
    match HttpClient::handle_response(199, "{\"message\":7}") {
        Err(DoorPassesError::ApiError { status, message }) => {
            assert_eq!(status, 199);
            assert_eq!(message, "{\"message\":7}");
        }
        _ => panic!("expected ApiError"),
    }
    match HttpClient::handle_response(300, "[\"message\"]") {
        Err(DoorPassesError::ApiError { status, message }) => {
            assert_eq!(status, 300);
            assert_eq!(message, "[\"message\"]");
        }
        _ => panic!("expected ApiError"),
    }
}

#[test]
fn error_for_status_uses_the_message_it_is_given() {
    assert!(HttpClient::error_for_status(200, "x", None).is_none());
    assert!(HttpClient::error_for_status(204, "x", Some("m".to_string())).is_none());
    match HttpClient::error_for_status(422, "raw", Some("given".to_string())) {
        Some(DoorPassesError::ApiError { status, message }) => {
            assert_eq!(status, 422);
            assert_eq!(message, "given");
        }
        _ => panic!("expected ApiError"),
    }
    match HttpClient::error_for_status(404, "raw", None) {
        Some(DoorPassesError::NotFound(message)) => assert_eq!(message, "raw"),
        _ => panic!("expected NotFound"),
    }
}

#[test]
fn decode_wraps_the_parse_error() {
    let bad: Result<serde_json::Value, serde_json::Error> = serde_json::from_str("{");
    assert!(matches!(
        HttpClient::decode(bad),
        Err(DoorPassesError::SerializationError(_))
    ));
    let good: Result<serde_json::Value, serde_json::Error> = serde_json::from_str("7");
    match HttpClient::decode(good) {
        Ok(document) => assert_eq!(document.as_u64(), Some(7)),
        Err(_) => panic!("expected a document"),
    }
}

#[test]
fn signature_is_the_keyed_hash_of_the_base64_payload() {
    assert_eq!(
        sign("test_secret", "/health"),
        "aa70e6c726b22411c752a1c89575763f8128059d6e0a1cde1fea2bbd54f7b089"
    );
    assert_eq!(
        sign("secret", "{\"name\":\"Staff\"}"),
        "4b16f049749107acab20d5555cb95c47565d14c2215c0b2b401ed0919fe13ce5"
    );
    assert_ne!(sign("secret", "a"), sign("secret", "b"));
    assert_ne!(sign("secret", "a"), sign("other", "a"));
}

#[test]
fn credentials_hold_the_account_and_not_the_secret() {
    let headers = authenticate("acct", "secret", "/health");
    assert_eq!(headers.account_id, "acct");
    assert_eq!(headers.signature, sign("secret", "/health"));
    assert_ne!(headers.signature, "secret");
    assert_eq!(authenticate("acct", "secret", "/health").signature, headers.signature);
}

#[test]
fn url_is_base_then_path() {
    let pool = reqwest::Client::builder().build().expect("a connection pool");
    let http = HttpClient::with_transport(
        "a".to_string(),
        "s".to_string(),
        "https://custom.api".to_string(),
        std::time::Duration::from_secs(1),
        pool,
    );
    assert_eq!(http.url("/v1/x"), "https://custom.api/v1/x");
    assert_eq!(http.url(""), "https://custom.api");
}

#[test]
fn transport_failures_are_timeouts_or_http_errors() {
    let pool = reqwest::Client::builder().build().expect("a connection pool");
    let cause = pool.get("no scheme here").build().expect_err("a request that cannot be built");
    assert!(matches!(DoorPassesError::from_transport(cause), DoorPassesError::HttpError(_)));
    let cause = pool.get("no scheme here").build().expect_err("a request that cannot be built");
    assert!(matches!(
        DoorPassesError::from_transport_failure(cause, true),
        DoorPassesError::Timeout
    ));
    let cause = pool.get("no scheme here").build().expect_err("a request that cannot be built");
    assert!(matches!(
        DoorPassesError::from_transport_failure(cause, false),
        DoorPassesError::HttpError(_)
    ));
}

#[test]
fn transport_is_built_with_what_it_is_given() {
    let http = match HttpClient::new(
        "a".to_string(),
        "s".to_string(),
        "https://custom.api".to_string(),
        std::time::Duration::from_secs(7),
    ) {
        Ok(http) => http,
        Err(_) => panic!("expected a transport"),
    };
    assert_eq!(http.account_id(), "a");
    assert_eq!(http.base_url(), "https://custom.api");
    assert_eq!(http.timeout(), std::time::Duration::from_secs(7));
    let req = http.post("/v1/x", "{}".to_string());
    assert_eq!(req.url, "https://custom.api/v1/x");
    assert_eq!(req.body.as_deref(), Some("{}"));
    assert_eq!(req.auth.signature, sign("s", "{}"));
    assert_eq!(req.timeout, std::time::Duration::from_secs(7));
}
