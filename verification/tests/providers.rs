use alaya_agent::providers::headers::bearer_authorization;
use alaya_agent::providers::url::join_url;
use alaya_agent::providers::{parse_api_error, ProviderError};
use alaya_agent::transport::{api_error, extract_error_message, is_success_status, TransportError};

#[test]
fn url_joins_base_and_path_without_duplicating_slashes() {
    assert_eq!(
        join_url("https://api.example.com/v1/", "/chat/completions"),
        "https://api.example.com/v1/chat/completions"
    );
}

#[test]
fn url_join_adds_a_missing_slash() {
    assert_eq!(join_url("https://api.acme.test/v1", "generate"), "https://api.acme.test/v1/generate");
    assert_eq!(join_url("https://x//", "//y"), "https://x/y");
}

#[test]
fn api_errors_read_the_envelope() {
    match parse_api_error("{\"error\":{\"code\":401,\"message\":\"bad key\"}}", 500) {
        ProviderError::ApiError { code, message } => {
            assert_eq!(code, 401);
            assert_eq!(message, "bad key");
        },
        other => panic!("unexpected {other:?}"),
    }
    match parse_api_error("{\"error\":{\"type\":\"invalid\"}}", 500) {
        ProviderError::ApiError { code, message } => {
            assert_eq!(code, 7);
            assert_eq!(message, "{\"error\":{\"type\":\"invalid\"}}");
        },
        other => panic!("unexpected {other:?}"),
    }
    match parse_api_error("{\"error\":\"slow down\"}", 429) {
        ProviderError::ApiError { code, message } => {
            assert_eq!(code, 0);
            assert_eq!(message, "slow down");
        },
        other => panic!("unexpected {other:?}"),
    }
    match parse_api_error("upstream exploded", 502) {
        ProviderError::ApiError { code, message } => {
            assert_eq!(code, 502);
            assert_eq!(message, "upstream exploded");
        },
        other => panic!("unexpected {other:?}"),
    }
}

#[test]
fn non_success_becomes_api_error_with_extracted_message() {
    assert!(matches!(
        api_error(401, "{\"error\":{\"code\":401,\"message\":\"bad key\"}}"),
        TransportError::Api { status: 401, message } if message == "bad key"
    ));
}

#[test]
fn error_message_falls_back_to_raw_body() {
    assert!(matches!(
        api_error(500, "upstream exploded"),
        TransportError::Api { status: 500, message } if message == "upstream exploded"
    ));
    assert_eq!(extract_error_message("{\"message\":\"m\"}"), "m");
    assert_eq!(extract_error_message("{\"other\":1}"), "{\"other\":1}");
}

#[test]
fn success_is_the_2xx_range() {
    assert!(is_success_status(200));
    assert!(is_success_status(299));
    assert!(!is_success_status(199));
    assert!(!is_success_status(300));
    assert!(!is_success_status(429));
}

#[test]
fn bearer_authorization_prefixes_the_key() {
    assert_eq!(bearer_authorization("secret"), "Bearer secret");
    assert_eq!(bearer_authorization(""), "Bearer ");
}
