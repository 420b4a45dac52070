use reqwest::Url;
use ruddr::client::request::{request_url, Request};
use ruddr::error::ValidationError;

#[test]
fn test_request_new_params() {
    assert_eq!(
        Request::new("endpoint", Some("params"))
            .expect("request could not be constructed")
            .url(),
        &Url::parse("https://www.ruddr.io/api/workspace/endpoint?params")
            .expect("failed to parse URL")
    )
}

#[test]
fn test_request_new_empty_params() {
    assert_eq!(
        Request::new("endpoint", None)
            .expect("request could not be constructed")
            .url(),
        &Url::parse("https://www.ruddr.io/api/workspace/endpoint").expect("failed to parse URL")
    )
}

#[test]
fn test_request_new_error() {
    assert_eq!(
        Request::new("", Some("params"))
            .err()
            .expect("empty endpoint was accepted")
            .message(),
        "invalid empty endpoint"
    )
}

#[test]
fn url_without_query_has_no_separator() {
    assert_eq!(
        request_url("members", None).unwrap(),
        "https://www.ruddr.io/api/workspace/members"
    );
}

#[test]
fn url_with_query_has_one_separator() {
    assert_eq!(
        request_url("members", Some("limit=100")).unwrap(),
        "https://www.ruddr.io/api/workspace/members?limit=100"
    );
}

#[test]
fn url_with_empty_query_has_no_separator() {
    assert_eq!(
        request_url("members", Some("")).unwrap(),
        "https://www.ruddr.io/api/workspace/members"
    );
}

#[test]
fn empty_endpoint_is_refused_with_or_without_query() {
    assert_eq!(request_url("", Some("x=1")), Err(ValidationError::EmptyEndpoint));
    assert_eq!(request_url("", None), Err(ValidationError::EmptyEndpoint));
}

#[test]
fn request_keeps_the_built_text() {
    let request = Request::new("projects/095e0780-48bf-472c-8deb-2fc3ebc7d90c", None).unwrap();
    assert_eq!(
        request.as_str(),
        "https://www.ruddr.io/api/workspace/projects/095e0780-48bf-472c-8deb-2fc3ebc7d90c"
    );
    assert_eq!(request.url().as_str(), request.as_str());
}
