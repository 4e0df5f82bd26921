//! Requests of the read-only search and agent-memory clients.
//!
//! Only read-side operations are offered: signing, registration, branch
//! mutation and memory writes would expose credentials or write access to
//! every script on the page.
use vstd::prelude::*;
use vstd::string::*;

use crate::http::{bearer, header, json_content_type, Endpoint, EndpointView, HttpMethod, HttpRequest, RequestView};
use crate::json::{json_object, object_text, pairs_view};
use crate::protocol::{pair, string_member, string_pair, decimal_string};
use crate::text::{decimal, trim_trailing_slashes, without_trailing_slashes};

verus! {

/// Read-only semantic search client.
pub struct SearchClient {
    endpoint: Endpoint,
}

/// Read-only agent-memory client (recall only).
pub struct MemoryReadClient {
    endpoint: Endpoint,
}

/// Headers of these clients: `Accept`, `Content-Type`, then the bearer
/// token when one is set.
pub open spec fn moonshot_headers(token: Option<Seq<char>>) -> Seq<(Seq<char>, Seq<char>)> {
    seq![("Accept"@, "application/json"@), json_content_type()] + match token {
        Some(t) => seq![("Authorization"@, bearer(t))],
        None => seq![],
    }
}

/// A POST request of these clients.
pub open spec fn moonshot_post(url: Seq<char>, body: Seq<char>, token: Option<Seq<char>>) -> RequestView {
    RequestView { method: HttpMethod::Post, url, body: Some(body), headers: moonshot_headers(token) }
}

/// The body of a search.
pub open spec fn search_members(topic: Seq<char>, query: Seq<char>, k: u32) -> Seq<(Seq<char>, Seq<char>)> {
    seq![("k"@, decimal(k as nat)), string_member("query"@, query), string_member("topic"@, topic)]
}

/// The body of a recall.
pub open spec fn recall_members(agent: Seq<char>, query: Seq<char>, k: u32) -> Seq<(Seq<char>, Seq<char>)> {
    seq![string_member("agent"@, agent), ("k"@, decimal(k as nat)), string_member("query"@, query)]
}

/// The body of a search within one topic.
pub open spec fn topic_search_members(query: Seq<char>, k: u32) -> Seq<(Seq<char>, Seq<char>)> {
    seq![("k"@, decimal(k as nat)), string_member("query"@, query)]
}

fn moonshot_request(url: String, body: String, token: &Option<String>) -> (r: HttpRequest)
    ensures
        r@ == moonshot_post(url@, body@, crate::protocol::opt_view(*token)),
{
    let mut headers: Vec<(String, String)> = Vec::new();
    headers.push(header("Accept", "application/json"));
    headers.push(header("Content-Type", "application/json"));
    match token {
        Some(t) => {
            let mut v = String::from_str("Bearer ");
            v.append(t.as_str());
            headers.push((String::from_str("Authorization"), v));
        },
        None => {},
    }
    let r = HttpRequest { method: HttpMethod::Post, url, body: Some(body), headers };
    assert(r@.headers =~= moonshot_headers(crate::protocol::opt_view(*token)));
    r
}

impl View for SearchClient {
    type V = EndpointView;

    closed spec fn view(&self) -> EndpointView {
        self.endpoint@
    }
}

impl View for MemoryReadClient {
    type V = EndpointView;

    closed spec fn view(&self) -> EndpointView {
        self.endpoint@
    }
}

impl SearchClient {
    /// A search client for the HTTP API at `base_url` (trailing slashes
    /// dropped), with no token.
    pub fn new(base_url: &str) -> (c: Self)
        ensures
            c@ == (EndpointView { base_url: trim_trailing_slashes(base_url@), auth_token: None }),
    {
        SearchClient { endpoint: Endpoint::new(base_url) }
    }

    /// Set the bearer token sent with every request.
    pub fn set_auth_token(&mut self, token: &str)
        ensures
            final(self)@ == (EndpointView { auth_token: Some(token@), ..old(self)@ }),
    {
        self.endpoint.set_auth_token(token);
    }

    /// `POST /api/v1/search` for the `k` best hits of `query` in `topic`.
    /// The topic and query must not be empty, and `k` must be positive.
    pub fn search_request(&self, topic: &str, query: &str, k: u32) -> (r: Result<HttpRequest, String>)
        ensures
            topic@.len() == 0 ==> (r matches Err(m) && m@ == "topic is required"@),
            topic@.len() > 0 && query@.len() == 0 ==> (r matches Err(m) && m@ == "query is required"@),
            topic@.len() > 0 && query@.len() > 0 && k == 0 ==> (r matches Err(m) && m@ == "k must be > 0"@),
            topic@.len() > 0 && query@.len() > 0 && k > 0 ==> (r matches Ok(q)
                && q@ == moonshot_post(self@.base_url + "/api/v1/search"@, object_text(search_members(topic@, query@, k)), self@.auth_token)),
    {
        if topic.is_empty() {
            return Err(String::from_str("topic is required"));
        }
        if query.is_empty() {
            return Err(String::from_str("query is required"));
        }
        if k == 0 {
            return Err(String::from_str("k must be > 0"));
        }
        let mut ms: Vec<(String, String)> = Vec::new();
        ms.push(pair("k", decimal_string(k as u64)));
        ms.push(string_pair("query", query));
        ms.push(string_pair("topic", topic));
        assert(pairs_view(ms@) =~= search_members(topic@, query@, k));
        Ok(moonshot_request(self.endpoint.url("/api/v1/search"), json_object(&ms), self.endpoint.auth_token()))
    }
}

impl MemoryReadClient {
    /// A memory client for the HTTP API at `base_url` (trailing slashes
    /// dropped), with no token.
    pub fn new(base_url: &str) -> (c: Self)
        ensures
            c@ == (EndpointView { base_url: trim_trailing_slashes(base_url@), auth_token: None }),
    {
        MemoryReadClient { endpoint: Endpoint::new(base_url) }
    }

    /// Set the bearer token sent with every request.
    pub fn set_auth_token(&mut self, token: &str)
        ensures
            final(self)@ == (EndpointView { auth_token: Some(token@), ..old(self)@ }),
    {
        self.endpoint.set_auth_token(token);
    }

    /// `POST /api/v1/memory/recall` for up to `k` memories of `agent`
    /// matching `query`. The agent and query must not be empty, and `k` must
    /// be positive.
    pub fn recall_request(&self, agent: &str, query: &str, k: u32) -> (r: Result<HttpRequest, String>)
        ensures
            agent@.len() == 0 ==> (r matches Err(m) && m@ == "agent is required"@),
            agent@.len() > 0 && query@.len() == 0 ==> (r matches Err(m) && m@ == "query is required"@),
            agent@.len() > 0 && query@.len() > 0 && k == 0 ==> (r matches Err(m) && m@ == "k must be > 0"@),
            agent@.len() > 0 && query@.len() > 0 && k > 0 ==> (r matches Ok(q)
                && q@ == moonshot_post(self@.base_url + "/api/v1/memory/recall"@, object_text(recall_members(agent@, query@, k)), self@.auth_token)),
    {
        if agent.is_empty() {
            return Err(String::from_str("agent is required"));
        }
        if query.is_empty() {
            return Err(String::from_str("query is required"));
        }
        if k == 0 {
            return Err(String::from_str("k must be > 0"));
        }
        let mut ms: Vec<(String, String)> = Vec::new();
        ms.push(string_pair("agent", agent));
        ms.push(pair("k", decimal_string(k as u64)));
        ms.push(string_pair("query", query));
        assert(pairs_view(ms@) =~= recall_members(agent@, query@, k));
        Ok(moonshot_request(self.endpoint.url("/api/v1/memory/recall"), json_object(&ms), self.endpoint.auth_token()))
    }
}

/// Headers of a consumer's topic search: `Accept`, then `Content-Type`.
pub open spec fn topic_search_post(url: Seq<char>, body: Seq<char>) -> RequestView {
    RequestView { method: HttpMethod::Post, url, body: Some(body), headers: moonshot_headers(None) }
}

/// `POST {base_url}/api/v1/topics/{topic}/search` for the `k` best hits of
/// `query` within `topic` (the search offered by a consumer). The query must
/// not be empty and `k` must be positive.
pub fn topic_search_request(base_url: &str, topic: &str, query: &str, k: u32) -> (r: Result<HttpRequest, String>)
    ensures
        query@.len() == 0 ==> (r matches Err(m) && m@ == "query is required"@),
        query@.len() > 0 && k == 0 ==> (r matches Err(m) && m@ == "k must be > 0"@),
        query@.len() > 0 && k > 0 ==> (r matches Ok(q) && q@ == topic_search_post(
            trim_trailing_slashes(base_url@) + "/api/v1/topics/"@ + topic@ + "/search"@,
            object_text(topic_search_members(query@, k)),
        )),
{
    if query.is_empty() {
        return Err(String::from_str("query is required"));
    }
    if k == 0 {
        return Err(String::from_str("k must be > 0"));
    }
    let mut ms: Vec<(String, String)> = Vec::new();
    ms.push(pair("k", decimal_string(k as u64)));
    ms.push(string_pair("query", query));
    assert(pairs_view(ms@) =~= topic_search_members(query@, k));
    let base = without_trailing_slashes(base_url);
    let url = crate::http::join_url3(base.as_str(), "/api/v1/topics/", topic, "/search");
    Ok(moonshot_request(url, json_object(&ms), &None))
}

} // verus!
