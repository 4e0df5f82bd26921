//! Requests of the HTTP admin and query clients.
//!
//! Path segments taken from user input are percent-encoded as
//! `encodeURIComponent` does.
use vstd::prelude::*;
use vstd::string::*;

use crate::error::{ErrorCode, StreamlineError};
use crate::http::{delete_view, encode, get_view, join_url, post_view, uri_component, Endpoint, EndpointView, HttpRequest};
use crate::json::{json_object, object_text, pairs_view};
use crate::protocol::{pair, string_member, string_pair, decimal_string};
use crate::text::{decimal, trim_trailing_slashes};
use crate::validation::check_topic;
use crate::validation::topic_name_error;

verus! {

/// HTTP admin client for topic and consumer group management.
pub struct AdminClient {
    endpoint: Endpoint,
}

/// HTTP client for SQL queries against stream data.
pub struct QueryClient {
    endpoint: Endpoint,
}

/// The body that creates a topic.
pub open spec fn create_topic_members(name: Seq<char>, partitions: u32) -> Seq<(Seq<char>, Seq<char>)> {
    seq![string_member("name"@, name), ("partitions"@, decimal(partitions as nat))]
}

/// The body of a query.
pub open spec fn query_members(sql: Seq<char>) -> Seq<(Seq<char>, Seq<char>)> {
    seq![string_member("query"@, sql)]
}

impl View for AdminClient {
    type V = EndpointView;

    closed spec fn view(&self) -> EndpointView {
        self.endpoint@
    }
}

impl View for QueryClient {
    type V = EndpointView;

    closed spec fn view(&self) -> EndpointView {
        self.endpoint@
    }
}

impl AdminClient {
    /// An admin client for the HTTP API at `base_url` (trailing slashes
    /// dropped), with no token.
    pub fn new(base_url: &str) -> (c: Self)
        ensures
            c@ == (EndpointView { base_url: trim_trailing_slashes(base_url@), auth_token: None }),
    {
        AdminClient { endpoint: Endpoint::new(base_url) }
    }

    /// Set the bearer token sent with every request.
    pub fn set_auth_token(&mut self, token: &str)
        ensures
            final(self)@ == (EndpointView { auth_token: Some(token@), ..old(self)@ }),
    {
        self.endpoint.set_auth_token(token);
    }

    /// The base URL.
    pub fn base_url(&self) -> (b: &str)
        ensures
            b@ == self@.base_url,
    {
        self.endpoint.base_url()
    }

    /// The token, if set.
    pub fn auth_token(&self) -> (t: &Option<String>)
        ensures
            crate::protocol::opt_view(*t) == self@.auth_token,
    {
        self.endpoint.auth_token()
    }

    /// `GET /api/topics`.
    pub fn list_topics_request(&self) -> (r: HttpRequest)
        ensures
            r@ == get_view(self@.base_url + "/api/topics"@, self@.auth_token),
    {
        self.endpoint.get("/api/topics")
    }

    /// `GET /api/topics/{name}`.
    pub fn describe_topic_request(&self, name: &str) -> (r: HttpRequest)
        ensures
            r@ == get_view(self@.base_url + ("/api/topics/"@ + uri_component(name@)), self@.auth_token),
    {
        self.endpoint.get(join_url("/api/topics/", encode(name).as_str()).as_str())
    }

    /// `POST /api/topics` creating `name` with `partitions`, after checking
    /// the topic name.
    pub fn create_topic_request(&self, name: &str, partitions: u32) -> (r: Result<HttpRequest, StreamlineError>)
        ensures
            match topic_name_error(name@) {
                Some(msg) => r matches Err(e) && e.is(ErrorCode::ConfigurationError, msg, false),
                None => r matches Ok(q) && q@ == post_view(
                    self@.base_url + "/api/topics"@,
                    object_text(create_topic_members(name@, partitions)),
                    self@.auth_token,
                ),
            },
    {
        check_topic(name)?;
        let mut ms: Vec<(String, String)> = Vec::new();
        ms.push(string_pair("name", name));
        ms.push(pair("partitions", decimal_string(partitions as u64)));
        assert(pairs_view(ms@) =~= create_topic_members(name@, partitions));
        Ok(self.endpoint.post("/api/topics", json_object(&ms)))
    }

    /// `DELETE /api/topics/{name}`, after checking the topic name.
    pub fn delete_topic_request(&self, name: &str) -> (r: Result<HttpRequest, StreamlineError>)
        ensures
            match topic_name_error(name@) {
                Some(msg) => r matches Err(e) && e.is(ErrorCode::ConfigurationError, msg, false),
                None => r matches Ok(q) && q@ == delete_view(self@.base_url + ("/api/topics/"@ + uri_component(name@)), self@.auth_token),
            },
    {
        check_topic(name)?;
        Ok(self.endpoint.delete(join_url("/api/topics/", encode(name).as_str()).as_str()))
    }

    /// `GET /api/consumer-groups`.
    pub fn list_consumer_groups_request(&self) -> (r: HttpRequest)
        ensures
            r@ == get_view(self@.base_url + "/api/consumer-groups"@, self@.auth_token),
    {
        self.endpoint.get("/api/consumer-groups")
    }

    /// `GET /api/consumer-groups/{group}`.
    pub fn describe_consumer_group_request(&self, group: &str) -> (r: HttpRequest)
        ensures
            r@ == get_view(self@.base_url + ("/api/consumer-groups/"@ + uri_component(group@)), self@.auth_token),
    {
        self.endpoint.get(join_url("/api/consumer-groups/", encode(group).as_str()).as_str())
    }

    /// `DELETE /api/consumer-groups/{group}`.
    pub fn delete_consumer_group_request(&self, group: &str) -> (r: HttpRequest)
        ensures
            r@ == delete_view(self@.base_url + ("/api/consumer-groups/"@ + uri_component(group@)), self@.auth_token),
    {
        self.endpoint.delete(join_url("/api/consumer-groups/", encode(group).as_str()).as_str())
    }

    /// `GET /health`; the server is healthy when this request succeeds.
    pub fn health_request(&self) -> (r: HttpRequest)
        ensures
            r@ == get_view(self@.base_url + "/health"@, self@.auth_token),
    {
        self.endpoint.get("/health")
    }

    /// `GET /api/info`.
    pub fn server_info_request(&self) -> (r: HttpRequest)
        ensures
            r@ == get_view(self@.base_url + "/api/info"@, self@.auth_token),
    {
        self.endpoint.get("/api/info")
    }
}

impl QueryClient {
    /// A query client for the HTTP API at `base_url` (trailing slashes
    /// dropped), with no token.
    pub fn new(base_url: &str) -> (c: Self)
        ensures
            c@ == (EndpointView { base_url: trim_trailing_slashes(base_url@), auth_token: None }),
    {
        QueryClient { endpoint: Endpoint::new(base_url) }
    }

    /// Set the bearer token sent with every request.
    pub fn set_auth_token(&mut self, token: &str)
        ensures
            final(self)@ == (EndpointView { auth_token: Some(token@), ..old(self)@ }),
    {
        self.endpoint.set_auth_token(token);
    }

    /// The base URL.
    pub fn base_url(&self) -> (b: &str)
        ensures
            b@ == self@.base_url,
    {
        self.endpoint.base_url()
    }

    /// The token, if set.
    pub fn auth_token(&self) -> (t: &Option<String>)
        ensures
            crate::protocol::opt_view(*t) == self@.auth_token,
    {
        self.endpoint.auth_token()
    }

    /// `POST /api/query` running `sql`.
    pub fn execute_request(&self, sql: &str) -> (r: HttpRequest)
        ensures
            r@ == post_view(self@.base_url + "/api/query"@, object_text(query_members(sql@)), self@.auth_token),
    {
        let mut ms: Vec<(String, String)> = Vec::new();
        ms.push(string_pair("query", sql));
        assert(pairs_view(ms@) =~= query_members(sql@));
        self.endpoint.post("/api/query", json_object(&ms))
    }
}

} // verus!
