use streamline_wasm_sdk::http::{Endpoint, HttpMethod};
use streamline_wasm_sdk::{Consumer, MemoryReadClient, SearchClient};

#[test]
fn base_url_trailing_slash_is_stripped() {
    let h = Endpoint::new("https://example.test/");
    assert_eq!(h.base_url(), "https://example.test");
}

#[test]
fn search_request_checks_input() {
    let client = SearchClient::new("https://example.test/");
    assert_eq!(client.search_request("", "q", 1).unwrap_err(), "topic is required");
    assert_eq!(client.search_request("t", "", 1).unwrap_err(), "query is required");
    assert_eq!(client.search_request("t", "q", 0).unwrap_err(), "k must be > 0");
}

#[test]
fn search_request_shape() {
    let mut client = SearchClient::new("https://example.test/");
    client.set_auth_token("tok");
    let r = client.search_request("logs", "disk \"full\"", 5).unwrap();
    assert_eq!(r.method, HttpMethod::Post);
    assert_eq!(r.url, "https://example.test/api/v1/search");
    assert_eq!(r.body.as_deref(), Some(r#"{"k":5,"query":"disk \"full\"","topic":"logs"}"#));
    assert_eq!(
        r.headers,
        vec![
            ("Accept".to_string(), "application/json".to_string()),
            ("Content-Type".to_string(), "application/json".to_string()),
            ("Authorization".to_string(), "Bearer tok".to_string()),
        ]
    );
}

#[test]
fn recall_request_shape() {
    let client = MemoryReadClient::new("https://example.test");
    assert_eq!(client.recall_request("", "q", 1).unwrap_err(), "agent is required");
    assert_eq!(client.recall_request("a", "", 1).unwrap_err(), "query is required");
    assert_eq!(client.recall_request("a", "q", 0).unwrap_err(), "k must be > 0");
    let r = client.recall_request("agent-7", "what happened", 3).unwrap();
    assert_eq!(r.url, "https://example.test/api/v1/memory/recall");
    assert_eq!(r.body.as_deref(), Some(r#"{"agent":"agent-7","k":3,"query":"what happened"}"#));
    assert_eq!(r.headers.len(), 2);
}

#[test]
fn consumer_search_request_shape() {
    let consumer = Consumer::new("ws://localhost:9094/ws", "events");
    assert_eq!(consumer.search_request("http://h/", "", 1).unwrap_err(), "query is required");
    assert_eq!(consumer.search_request("http://h/", "q", 0).unwrap_err(), "k must be > 0");
    let r = consumer.search_request("http://h//", "needle", 10).unwrap();
    assert_eq!(r.url, "http://h/api/v1/topics/events/search");
    assert_eq!(r.body.as_deref(), Some(r#"{"k":10,"query":"needle"}"#));
    assert_eq!(
        r.headers,
        vec![
            ("Accept".to_string(), "application/json".to_string()),
            ("Content-Type".to_string(), "application/json".to_string()),
        ]
    );
}
