//! HTTP requests of the REST clients, as plain values: the browser bindings
//! send them with `fetch` and decode the responses.
use vstd::prelude::*;
use vstd::string::*;

use vstd::utf8::encode_utf8;

use crate::protocol::opt_view;
use crate::text::{push_char, trim_trailing_slashes, without_trailing_slashes};

verus! {

/// HTTP methods used by the clients.
#[derive(Debug, Clone, Copy, PartialEq, Eq, Structural)]
pub enum HttpMethod {
    Get,
    Post,
    Delete,
}

/// A request to send: method, URL, optional JSON body and headers in the
/// order they are set.
#[derive(Debug)]
pub struct HttpRequest {
    pub method: HttpMethod,
    pub url: String,
    pub body: Option<String>,
    pub headers: Vec<(String, String)>,
}

/// The abstract content of a request.
pub struct RequestView {
    pub method: HttpMethod,
    pub url: Seq<char>,
    pub body: Option<Seq<char>>,
    pub headers: Seq<(Seq<char>, Seq<char>)>,
}

impl View for HttpRequest {
    type V = RequestView;

    open spec fn view(&self) -> RequestView {
        RequestView {
            method: self.method,
            url: self.url@,
            body: match self.body {
                Some(b) => Some(b@),
                None => None,
            },
            headers: self.headers@.map_values(|h: (String, String)| (h.0@, h.1@)),
        }
    }
}

/// The `Authorization` value for a bearer token.
pub open spec fn bearer(token: Seq<char>) -> Seq<char> {
    "Bearer "@ + token
}

/// `Accept: application/json`, then the bearer token when one is set.
pub open spec fn auth_headers(token: Option<Seq<char>>) -> Seq<(Seq<char>, Seq<char>)> {
    seq![("Accept"@, "application/json"@)] + match token {
        Some(t) => seq![("Authorization"@, bearer(t))],
        None => seq![],
    }
}

/// A JSON body's content type.
pub open spec fn json_content_type() -> (Seq<char>, Seq<char>) {
    ("Content-Type"@, "application/json"@)
}

/// A GET request with the common headers.
pub open spec fn get_view(url: Seq<char>, token: Option<Seq<char>>) -> RequestView {
    RequestView { method: HttpMethod::Get, url, body: None, headers: auth_headers(token) }
}

/// A DELETE request with the common headers.
pub open spec fn delete_view(url: Seq<char>, token: Option<Seq<char>>) -> RequestView {
    RequestView { method: HttpMethod::Delete, url, body: None, headers: auth_headers(token) }
}

/// A POST request with a JSON body: the common headers, then the content type.
pub open spec fn post_view(url: Seq<char>, body: Seq<char>, token: Option<Seq<char>>) -> RequestView {
    RequestView {
        method: HttpMethod::Post,
        url,
        body: Some(body),
        headers: auth_headers(token).push(json_content_type()),
    }
}

/// A header pair.
pub fn header(name: &str, value: &str) -> (h: (String, String))
    ensures
        h.0@ == name@,
        h.1@ == value@,
{
    (String::from_str(name), String::from_str(value))
}

/// The common headers: `Accept`, then `Authorization` when a token is set.
pub fn common_headers(token: &Option<String>) -> (hs: Vec<(String, String)>)
    ensures
        hs@.map_values(|h: (String, String)| (h.0@, h.1@)) == auth_headers(opt_view(*token)),
{
    let mut hs: Vec<(String, String)> = Vec::new();
    hs.push(header("Accept", "application/json"));
    match token {
        Some(t) => {
            let mut v = String::from_str("Bearer ");
            v.append(t.as_str());
            hs.push((String::from_str("Authorization"), v));
        },
        None => {},
    }
    assert(hs@.map_values(|h: (String, String)| (h.0@, h.1@)) =~= auth_headers(opt_view(*token)));
    hs
}

/// A GET request to `url`.
pub fn get_request(url: String, token: &Option<String>) -> (r: HttpRequest)
    ensures
        r@ == get_view(url@, opt_view(*token)),
{
    HttpRequest { method: HttpMethod::Get, url, body: None, headers: common_headers(token) }
}

/// A DELETE request to `url`.
pub fn delete_request(url: String, token: &Option<String>) -> (r: HttpRequest)
    ensures
        r@ == delete_view(url@, opt_view(*token)),
{
    HttpRequest { method: HttpMethod::Delete, url, body: None, headers: common_headers(token) }
}

/// A POST request to `url` with a JSON body.
pub fn post_request(url: String, body: String, token: &Option<String>) -> (r: HttpRequest)
    ensures
        r@ == post_view(url@, body@, opt_view(*token)),
{
    let mut headers = common_headers(token);
    let ghost before = headers@;
    headers.push(header("Content-Type", "application/json"));
    let r = HttpRequest { method: HttpMethod::Post, url, body: Some(body), headers };
    assert(r@.headers =~= auth_headers(opt_view(*token)).push(json_content_type()));
    r
}

/// `base` followed by `path`.
pub fn join_url(base: &str, path: &str) -> (u: String)
    ensures
        u@ == base@ + path@,
{
    let mut u = String::from_str(base);
    u.append(path);
    u
}

/// `base` followed by `a`, `b` and `c`.
pub fn join_url3(base: &str, a: &str, b: &str, c: &str) -> (u: String)
    ensures
        u@ == base@ + a@ + b@ + c@,
{
    let mut u = String::from_str(base);
    u.append(a);
    u.append(b);
    u.append(c);
    u
}

/// The bytes that `encodeURIComponent` keeps as they are: ASCII letters and
/// digits and `-_.!~*'()`.
pub open spec fn is_unreserved(b: u8) -> bool {
    ||| (0x41 <= b && b <= 0x5a)
    ||| (0x61 <= b && b <= 0x7a)
    ||| (0x30 <= b && b <= 0x39)
    ||| b == 0x2d || b == 0x5f || b == 0x2e || b == 0x21 || b == 0x7e
    ||| b == 0x2a || b == 0x27 || b == 0x28 || b == 0x29
}

/// The uppercase hexadecimal digit of `n < 16`.
pub open spec fn upper_hex(n: u8) -> char {
    "0123456789ABCDEF"@[n as int]
}

/// One byte of a URI component: itself when unreserved, else `%XX`.
pub open spec fn escaped_byte(b: u8) -> Seq<char> {
    if is_unreserved(b) {
        seq![b as char]
    } else {
        seq!['%', upper_hex(b / 16), upper_hex(b % 16)]
    }
}

/// The escaped bytes, in order.
pub open spec fn escaped_bytes(bs: Seq<u8>) -> Seq<char>
    decreases bs.len(),
{
    if bs.len() == 0 {
        Seq::empty()
    } else {
        escaped_bytes(bs.drop_last()) + escaped_byte(bs.last())
    }
}

/// `encodeURIComponent(s)`: the UTF-8 bytes of `s`, each unreserved byte
/// as its character and every other byte as `%` and two uppercase
/// hexadecimal digits.
pub open spec fn uri_component(s: Seq<char>) -> Seq<char> {
    escaped_bytes(encode_utf8(s))
}

fn is_unreserved_byte(b: u8) -> (r: bool)
    ensures
        r == is_unreserved(b),
{
    (0x41 <= b && b <= 0x5a) || (0x61 <= b && b <= 0x7a) || (0x30 <= b && b <= 0x39) || b == 0x2d
        || b == 0x5f || b == 0x2e || b == 0x21 || b == 0x7e || b == 0x2a || b == 0x27 || b == 0x28
        || b == 0x29
}

fn hex_upper(n: u8) -> (c: char)
    requires
        n < 16,
    ensures
        c == upper_hex(n),
{
    proof {
        reveal_strlit("0123456789ABCDEF");
    }
    match n {
        0 => '0',
        1 => '1',
        2 => '2',
        3 => '3',
        4 => '4',
        5 => '5',
        6 => '6',
        7 => '7',
        8 => '8',
        9 => '9',
        10 => 'A',
        11 => 'B',
        12 => 'C',
        13 => 'D',
        14 => 'E',
        _ => 'F',
    }
}

/// Percent-encode `s` as a URI component, as `encodeURIComponent` does.
pub fn encode(s: &str) -> (e: String)
    ensures
        e@ == uri_component(s@),
{
    let bytes = s.as_bytes();
    let mut out = String::new();
    let mut i: usize = 0;
    assert(bytes@.take(0) =~= Seq::<u8>::empty());
    while i < bytes.len()
        invariant
            i <= bytes@.len(),
            bytes@ == encode_utf8(s@),
            out@ == escaped_bytes(bytes@.take(i as int)),
        decreases bytes@.len() - i,
    {
        let b = bytes[i];
        if is_unreserved_byte(b) {
            push_char(&mut out, b as char);
        } else {
            push_char(&mut out, '%');
            push_char(&mut out, hex_upper(b / 16));
            push_char(&mut out, hex_upper(b % 16));
        }
        assert(bytes@.take(i + 1).drop_last() =~= bytes@.take(i as int));
        i = i + 1;
    }
    assert(bytes@.take(bytes@.len() as int) =~= bytes@);
    out
}

/// The base URL and token of a REST client. The base URL is kept without
/// trailing slashes.
pub struct Endpoint {
    base_url: String,
    auth_token: Option<String>,
}

/// The abstract content of an endpoint.
pub struct EndpointView {
    pub base_url: Seq<char>,
    pub auth_token: Option<Seq<char>>,
}

impl View for Endpoint {
    type V = EndpointView;

    closed spec fn view(&self) -> EndpointView {
        EndpointView { base_url: self.base_url@, auth_token: opt_view(self.auth_token) }
    }
}

impl Endpoint {
    /// An endpoint for `base_url`, without its trailing slashes, and no token.
    pub fn new(base_url: &str) -> (e: Self)
        ensures
            e@ == (EndpointView { base_url: trim_trailing_slashes(base_url@), auth_token: None }),
    {
        Endpoint { base_url: without_trailing_slashes(base_url), auth_token: None }
    }

    /// Set the bearer token sent with every request.
    pub fn set_auth_token(&mut self, token: &str)
        ensures
            final(self)@ == (EndpointView { auth_token: Some(token@), ..old(self)@ }),
    {
        self.auth_token = Some(String::from_str(token));
    }

    /// The base URL.
    pub fn base_url(&self) -> (b: &str)
        ensures
            b@ == self@.base_url,
    {
        self.base_url.as_str()
    }

    /// The token, if set.
    pub fn auth_token(&self) -> (t: &Option<String>)
        ensures
            opt_view(*t) == self@.auth_token,
    {
        &self.auth_token
    }

    /// A GET request for `path` under the base URL.
    pub fn get(&self, path: &str) -> (r: HttpRequest)
        ensures
            r@ == get_view(self@.base_url + path@, self@.auth_token),
    {
        get_request(join_url(self.base_url.as_str(), path), &self.auth_token)
    }

    /// A DELETE request for `path` under the base URL.
    pub fn delete(&self, path: &str) -> (r: HttpRequest)
        ensures
            r@ == delete_view(self@.base_url + path@, self@.auth_token),
    {
        delete_request(join_url(self.base_url.as_str(), path), &self.auth_token)
    }

    /// A POST request with a JSON body for `path` under the base URL.
    pub fn post(&self, path: &str, body: String) -> (r: HttpRequest)
        ensures
            r@ == post_view(self@.base_url + path@, body@, self@.auth_token),
    {
        post_request(join_url(self.base_url.as_str(), path), body, &self.auth_token)
    }

    /// `path` under the base URL.
    pub fn url(&self, path: &str) -> (u: String)
        ensures
            u@ == self@.base_url + path@,
    {
        join_url(self.base_url.as_str(), path)
    }
}

} // verus!
