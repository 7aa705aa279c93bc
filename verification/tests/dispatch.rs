use rgewe_api::client::auth_header_name;
use rgewe_api::client::default_base_url;
use rgewe_api::client::token_route;
use rgewe_api::ApiClientBuilder;
use rgewe_api::ApiError;
use rgewe_api::RequestBody;

#[test]
fn builder_defaults() {
    let c = ApiClientBuilder::new().build();
    assert_eq!(c.token, "");
    assert_eq!(c.base_url, "http://localhost:2531/v2/api");
    assert_eq!(default_base_url(), "http://localhost:2531/v2/api");
    assert_eq!(auth_header_name(), "X-GEWE-TOKEN");
    assert_eq!(token_route(), "/tools/getTokenId");
}

#[test]
fn builder_overrides() {
    let c = ApiClientBuilder::new()
        .with_token("secret")
        .with_base_url("http://example.test/v2/api")
        .build();
    assert_eq!(c.token, "secret");
    assert_eq!(c.base_url, "http://example.test/v2/api");
}

#[test]
fn token_route_allows_empty_body() {
    let c = ApiClientBuilder::new().build();
    let p = c.prepare_request("/tools/getTokenId", None).unwrap();
    assert_eq!(p.url, "http://localhost:2531/v2/api/tools/getTokenId");
    assert_eq!(p.token, "");
    assert!(p.body.is_none());
}

#[test]
fn other_route_refuses_empty_body() {
    let c = ApiClientBuilder::new().build();
    let e = c.prepare_request("/personal/getProfile", None).unwrap_err();
    assert!(matches!(e, ApiError::Configuration(ref route) if route == "/personal/getProfile"));
    assert_eq!(e.message(), "Empty json body for route: /personal/getProfile");
}

#[test]
fn profile_request_body_is_exact() {
    let c = ApiClientBuilder::new().with_token("tok123").build();
    let mut body = RequestBody::new();
    body.push_str("appId", "X");
    let p = c.prepare_request("/personal/getProfile", Some(&body)).unwrap();
    assert_eq!(p.body.as_deref(), Some("{\"appId\":\"X\"}"));
    assert_eq!(p.token, "tok123");
    assert_eq!(auth_header_name(), "X-GEWE-TOKEN");
    assert_eq!(p.url, "http://localhost:2531/v2/api/personal/getProfile");
}

#[test]
fn empty_body_object_on_other_route_is_allowed() {
    // Only a missing body is refused; an explicit body with no fields passes.
    let c = ApiClientBuilder::new().build();
    let body = RequestBody::new();
    let p = c.prepare_request("/login/logout", Some(&body)).unwrap();
    assert_eq!(p.body.as_deref(), Some("{}"));
}

#[test]
fn transport_error_message_passes_through() {
    let e = ApiError::Transport(String::from("connection refused"));
    assert_eq!(e.message(), "connection refused");
}
