use streamline_wasm_sdk::http::{encode, HttpMethod};
use streamline_wasm_sdk::{AdminClient, ErrorCode, QueryClient};

fn headers(pairs: &[(&str, &str)]) -> Vec<(String, String)> {
    pairs.iter().map(|(n, v)| (n.to_string(), v.to_string())).collect()
}

// ── Client construction ──────────────────────────────────────────

#[test]
fn test_admin_client_construction() {
    let client = AdminClient::new("http://localhost:9094");
    assert_eq!(client.base_url(), "http://localhost:9094");
    assert!(client.auth_token().is_none());
}

#[test]
fn test_admin_client_trailing_slash() {
    let client = AdminClient::new("http://localhost:9094/");
    assert_eq!(client.base_url(), "http://localhost:9094");
}

#[test]
fn test_admin_client_auth_token() {
    let mut client = AdminClient::new("http://localhost:9094");
    client.set_auth_token("secret");
    assert_eq!(client.auth_token().as_deref(), Some("secret"));
}

#[test]
fn test_query_client_construction() {
    let client = QueryClient::new("http://localhost:9094");
    assert_eq!(client.base_url(), "http://localhost:9094");
}

#[test]
fn test_query_client_auth_token() {
    let mut client = QueryClient::new("http://localhost:9094");
    client.set_auth_token("token");
    assert_eq!(client.auth_token().as_deref(), Some("token"));
}

#[test]
fn test_admin_client_multiple_trailing_slashes() {
    let client = AdminClient::new("http://localhost:9094///");
    assert!(!client.base_url().ends_with('/'));
    assert_eq!(client.base_url(), "http://localhost:9094");
}

#[test]
fn test_query_client_trailing_slash() {
    let client = QueryClient::new("http://localhost:9094/");
    assert_eq!(client.base_url(), "http://localhost:9094");
}

#[test]
fn test_admin_client_with_path() {
    let client = AdminClient::new("http://localhost:9094/api/v2");
    assert_eq!(client.base_url(), "http://localhost:9094/api/v2");
}

#[test]
fn test_admin_client_overwrite_auth_token() {
    let mut client = AdminClient::new("http://localhost:9094");
    client.set_auth_token("first");
    client.set_auth_token("second");
    assert_eq!(client.auth_token().as_deref(), Some("second"));
}

#[test]
fn test_query_client_no_auth_by_default() {
    let client = QueryClient::new("http://localhost:9094");
    assert!(client.auth_token().is_none());
}

// ── Requests ─────────────────────────────────────────────────────

#[test]
fn admin_get_requests() {
    let mut client = AdminClient::new("http://h:1/");
    let r = client.list_topics_request();
    assert_eq!(r.method, HttpMethod::Get);
    assert_eq!(r.url, "http://h:1/api/topics");
    assert!(r.body.is_none());
    assert_eq!(r.headers, headers(&[("Accept", "application/json")]));
    client.set_auth_token("tok");
    let r = client.describe_topic_request("a b/c");
    assert_eq!(r.url, "http://h:1/api/topics/a%20b%2Fc");
    assert_eq!(
        r.headers,
        headers(&[("Accept", "application/json"), ("Authorization", "Bearer tok")])
    );
    assert_eq!(client.list_consumer_groups_request().url, "http://h:1/api/consumer-groups");
    assert_eq!(client.describe_consumer_group_request("g 1").url, "http://h:1/api/consumer-groups/g%201");
    let r = client.delete_consumer_group_request("g");
    assert_eq!(r.method, HttpMethod::Delete);
    assert_eq!(r.url, "http://h:1/api/consumer-groups/g");
    assert_eq!(client.health_request().url, "http://h:1/health");
    assert_eq!(client.server_info_request().url, "http://h:1/api/info");
}

#[test]
fn admin_create_topic_request_body() {
    let client = AdminClient::new("http://h:1");
    let r = client.create_topic_request("orders", 3).unwrap();
    assert_eq!(r.method, HttpMethod::Post);
    assert_eq!(r.url, "http://h:1/api/topics");
    assert_eq!(r.body.as_deref(), Some(r#"{"name":"orders","partitions":3}"#));
    assert_eq!(
        r.headers,
        headers(&[("Accept", "application/json"), ("Content-Type", "application/json")])
    );
}

#[test]
fn admin_topic_requests_validate_the_name() {
    let client = AdminClient::new("http://h:1");
    let e = client.create_topic_request("bad name", 3).unwrap_err();
    assert_eq!(e.code(), ErrorCode::ConfigurationError);
    assert_eq!(e.message(), "Topic name contains invalid characters: bad name");
    let e = client.delete_topic_request("").unwrap_err();
    assert_eq!(e.message(), "Topic name must not be empty");
    let r = client.delete_topic_request("orders").unwrap();
    assert_eq!(r.method, HttpMethod::Delete);
    assert_eq!(r.url, "http://h:1/api/topics/orders");
}

#[test]
fn query_request_body() {
    let client = QueryClient::new("http://h:1");
    let r = client.execute_request("SELECT * FROM \"t\"");
    assert_eq!(r.url, "http://h:1/api/query");
    assert_eq!(r.body.as_deref(), Some(r#"{"query":"SELECT * FROM \"t\""}"#));
}

#[test]
fn uri_component_encoding() {
    assert_eq!(encode("abc-_.!~*'()XYZ09"), "abc-_.!~*'()XYZ09");
    assert_eq!(encode("a b/c?d=e&f"), "a%20b%2Fc%3Fd%3De%26f");
    assert_eq!(encode("ï"), "%C3%AF");
    assert_eq!(encode(""), "");
}
