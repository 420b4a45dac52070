use ruddr::client::client::{
    authorization_header, bearer_value, finish_decode, read_response, resolve_credential, ApiClient, Decode,
};
use ruddr::error::{ApiError, ConfigError, TransportError};

#[test]
fn test_client_new() {
    let client = ApiClient::new(Some("abcdefghi123456789"), None);
    assert!(client.is_ok(), "client with token could not be constructed");
}

#[test]
fn test_client_new_env() {
    let client = ApiClient::new(None, Some("abcdefghi123456789"));
    assert!(client.is_ok(), "client with fallback token could not be constructed");

    assert_eq!(
        ApiClient::new(None, None)
            .err()
            .expect("client without token was built")
            .message(),
        "ruddr api token was not input through code or RUDDR_TOKEN environment variable",
        "attempted client build without token did not error expectedly",
    )
}

#[test]
fn missing_credential_is_a_config_error() {
    match ApiClient::new(None, None) {
        Err(e) => assert_eq!(e, ApiError::Config(ConfigError::MissingCredential)),
        Ok(_) => panic!("client without token was built"),
    }
}

#[test]
fn explicit_token_wins_over_fallback() {
    assert_eq!(resolve_credential(Some("explicit"), Some("fallback")).unwrap(), "explicit");
    assert_eq!(resolve_credential(None, Some("fallback")).unwrap(), "fallback");
    assert_eq!(resolve_credential(Some(""), Some("fallback")).unwrap(), "");
    assert_eq!(resolve_credential(None, None), Err(ConfigError::MissingCredential));
}

#[test]
fn authorization_value_is_bearer_token() {
    assert_eq!(bearer_value("abc"), "Bearer abc");
    let value = authorization_header("abc").unwrap();
    assert_eq!(value, "Bearer abc");
    assert!(value.is_sensitive());
}

#[test]
fn control_characters_in_token_are_refused() {
    assert_eq!(
        authorization_header("ab\ncd").err(),
        Some(ConfigError::InvalidHeaderValue)
    );
    match ApiClient::new(Some("ab\ncd"), None) {
        Err(e) => assert_eq!(e, ApiError::Config(ConfigError::InvalidHeaderValue)),
        Ok(_) => panic!("client with a newline in its token was built"),
    }
    assert!(authorization_header("tab\tand ünïcode").is_ok());
}

/// A decimal number written as the whole body.
#[derive(Debug, PartialEq)]
struct Count(u32);

impl Decode for Count {
    fn decode(body: &[u8]) -> Result<Self, String> {
        std::str::from_utf8(body)
            .ok()
            .and_then(|s| s.trim().parse::<u32>().ok())
            .map(Count)
            .ok_or_else(|| String::from("not a count"))
    }
}

#[test]
fn error_status_is_transport_error_without_decoding() {
    assert_eq!(
        read_response::<Count>(401, b"{not json"),
        Err(ApiError::Transport(TransportError::Status(401)))
    );
    assert_eq!(
        read_response::<Count>(500, b"12"),
        Err(ApiError::Transport(TransportError::Status(500)))
    );
    assert_eq!(
        read_response::<Count>(302, b"12"),
        Err(ApiError::Transport(TransportError::Status(302)))
    );
}

#[test]
fn undecodable_success_body_is_decode_error() {
    assert_eq!(
        read_response::<Count>(200, b"{\"unexpected\": true}"),
        Err(ApiError::Decode(String::from("not a count")))
    );
}

#[test]
fn decodable_success_body_is_returned() {
    assert_eq!(read_response::<Count>(200, b"42"), Ok(Count(42)));
    assert_eq!(read_response::<Count>(299, b"7"), Ok(Count(7)));
}

#[test]
fn decoder_outcome_maps_to_read_result() {
    assert_eq!(finish_decode::<u8>(Ok(3)), Ok(3));
    assert_eq!(
        finish_decode::<u8>(Err(String::from("bad"))),
        Err(ApiError::Decode(String::from("bad")))
    );
}

#[test]
fn error_messages() {
    assert_eq!(
        ApiError::Transport(TransportError::Network(String::from("refused"))).message(),
        "request failed: refused"
    );
    assert_eq!(
        ApiError::Decode(String::from("missing field `id`")).message(),
        "response could not be decoded: missing field `id`"
    );
    assert_eq!(
        ApiError::Validation(ruddr::error::ValidationError::EmptyEndpoint).message(),
        "invalid empty endpoint"
    );
}
