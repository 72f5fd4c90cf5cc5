//! What a request is made of: base URLs, verbs, headers, query parameters
//! and the retry policy.

use vstd::prelude::*;
use crate::client::headers::{push_header, set_header, with_header};
use crate::client::web_address::{parse_url, parsed_url, url_text};

verus! {

/// The name of the header that carries the credentials of a call.
pub const AUTHORIZATION: &'static str = "Authorization";

/// The name of the header that names the media type of the body.
pub const CONTENT_TYPE: &'static str = "Content-Type";

/// The name of the header that identifies the calling software.
pub const USER_AGENT_HEADER: &'static str = "User-Agent";

/// The media type of JSON bodies.
pub const JSON_MEDIA_TYPE: &'static str = "application/json";

/// The media type of form bodies.
pub const FORM_MEDIA_TYPE: &'static str = "application/x-www-form-urlencoded";

/// The HTTP verbs that the engine sends.
#[derive(Clone, Copy, Debug, PartialEq, Eq, Structural)]
pub enum Method {
    Get,
    Post,
    Patch,
    Delete,
}

impl Method {
    /// The verb's name on the wire.
    pub open spec fn name(self) -> Seq<char> {
        match self {
            Method::Get => "GET"@,
            Method::Post => "POST"@,
            Method::Patch => "PATCH"@,
            Method::Delete => "DELETE"@,
        }
    }

    /// The verb's name on the wire.
    pub fn as_str(&self) -> (r: &'static str)
        ensures
            r@ == self.name(),
    {
        match self {
            Method::Get => "GET",
            Method::Post => "POST",
            Method::Patch => "PATCH",
            Method::Delete => "DELETE",
        }
    }
}

/// How often a request may be sent again after a transient failure.
#[derive(Clone, Copy, Debug, PartialEq, Eq, Structural)]
pub enum RequestStrategy {
    /// One attempt; the first failure is final.
    Once,
    /// Up to this many further attempts after the first.
    Retry(u32),
}

impl RequestStrategy {
    /// The number of retries that the policy grants.
    pub open spec fn retries(self) -> u32 {
        match self {
            RequestStrategy::Once => 0,
            RequestStrategy::Retry(count) => count,
        }
    }

    /// The configured retry count; `None` where none is set.
    pub fn get_retry_count(&self) -> (r: Option<u32>)
        ensures
            r == match *self {
                RequestStrategy::Once => None::<u32>,
                RequestStrategy::Retry(count) => Some(count),
            },
    {
        match self {
            RequestStrategy::Once => None,
            RequestStrategy::Retry(count) => Some(*count),
        }
    }

    /// The number of retries that the policy grants: the configured count,
    /// or none where it is unset.
    pub fn max_retries(&self) -> (r: u32)
        ensures
            r == self.retries(),
    {
        match self.get_retry_count() {
            Some(count) => count,
            None => 0,
        }
    }
}

impl Default for RequestStrategy {
    fn default() -> (r: RequestStrategy)
        ensures
            r == RequestStrategy::Once,
    {
        RequestStrategy::Once
    }
}

/// The two hosts of the provider.
#[derive(Clone, Copy, Debug, PartialEq, Eq, Structural)]
pub enum RequestUrl {
    Sandbox,
    Live,
}

impl RequestUrl {
    /// The base address of the host.
    pub open spec fn text(self) -> Seq<char> {
        match self {
            RequestUrl::Sandbox => "https://api-m.sandbox.paypal.com"@,
            RequestUrl::Live => "https://api-m.paypal.com"@,
        }
    }

    /// The base address of the host.
    pub fn as_str(&self) -> (r: &'static str)
        ensures
            r@ == self.text(),
    {
        match self {
            RequestUrl::Sandbox => "https://api-m.sandbox.paypal.com",
            RequestUrl::Live => "https://api-m.paypal.com",
        }
    }

    /// The base address as a URL; an error where it does not parse as one.
    pub fn as_url(&self) -> (r: Result<http_types::Url, http_types::url::ParseError>)
        ensures
            match r {
                Ok(url) => parsed_url(self.text()) == Some(url_text(url)),
                Err(_) => parsed_url(self.text()) is None,
            },
    {
        parse_url(self.as_str())
    }
}

/// The headers that a descriptor declares for its request.
#[derive(Debug, PartialEq, Eq)]
pub struct HttpRequestHeaders {
    /// The value of `Authorization`.
    pub authorization: String,
    /// The value of `Content-Type`.
    pub content_type: String,
}

impl HttpRequestHeaders {
    /// The headers as name/value pairs, in the order in which they are set.
    pub open spec fn pairs(self) -> Seq<(Seq<char>, Seq<char>)> {
        seq![(AUTHORIZATION@, self.authorization@), (CONTENT_TYPE@, self.content_type@)]
    }

    /// Headers for a JSON request that carries the given credentials.
    pub fn new(authorization: String) -> (r: HttpRequestHeaders)
        ensures
            r.authorization == authorization,
            r.content_type@ == JSON_MEDIA_TYPE@,
    {
        HttpRequestHeaders { authorization, content_type: JSON_MEDIA_TYPE.to_owned() }
    }

    /// The headers as name/value pairs, in the order in which they are set.
    pub fn to_vec(&self) -> (r: Vec<(String, String)>)
        ensures
            r.deep_view() == self.pairs(),
    {
        let mut out: Vec<(String, String)> = Vec::new();
        out.push((AUTHORIZATION.to_owned(), self.authorization.clone()));
        out.push((CONTENT_TYPE.to_owned(), self.content_type.clone()));
        assert(out.deep_view() =~= self.pairs());
        out
    }
}

impl Clone for HttpRequestHeaders {
    /// A copy with the same values.
    fn clone(&self) -> (r: HttpRequestHeaders)
        ensures
            r == *self,
    {
        HttpRequestHeaders {
            authorization: self.authorization.clone(),
            content_type: self.content_type.clone(),
        }
    }
}

impl Default for HttpRequestHeaders {
    fn default() -> (r: HttpRequestHeaders)
        ensures
            r.authorization@ == Seq::<char>::empty(),
            r.content_type@ == JSON_MEDIA_TYPE@,
    {
        HttpRequestHeaders::new(String::new())
    }
}

/// A request as the transport is to send it: verb, address, headers in
/// order, and the body where there is one.
#[derive(Clone, Debug, PartialEq, Eq)]
pub struct PreparedRequest {
    /// The verb.
    pub method: Method,
    /// The absolute address.
    pub url: http_types::Url,
    /// The headers, in the order in which they were set.
    pub headers: Vec<(String, String)>,
    /// The body; `None` for a request without one.
    pub body: Option<String>,
}

impl PreparedRequest {
    /// The headers as name/value texts.
    pub open spec fn header_pairs(self) -> Seq<(Seq<char>, Seq<char>)> {
        self.headers.deep_view()
    }

    /// The body as text, where there is one.
    pub open spec fn body_text(self) -> Option<Seq<char>> {
        match self.body {
            Some(text) => Some(text@),
            None => None,
        }
    }

    /// A request to an address, without headers or body.
    pub fn new(method: Method, url: http_types::Url) -> (r: PreparedRequest)
        ensures
            r.method == method,
            r.url == url,
            r.header_pairs() == Seq::<(Seq<char>, Seq<char>)>::empty(),
            r.body is None,
    {
        let headers: Vec<(String, String)> = Vec::new();
        assert(headers.deep_view() =~= Seq::empty());
        PreparedRequest { method, url, headers, body: None }
    }

    /// Adds a header after those that are there; one of the same name stays.
    pub fn header(self, name: &str, value: &str) -> (r: PreparedRequest)
        ensures
            r.method == self.method,
            r.url == self.url,
            r.body == self.body,
            r.header_pairs() == self.header_pairs().push((name@, value@)),
    {
        let mut request = self;
        push_header(&mut request.headers, name, value);
        request
    }

    /// Sets a header: any entries of that name are dropped and the new one
    /// is added last.
    pub fn set_header(self, name: &str, value: &str) -> (r: PreparedRequest)
        ensures
            r.method == self.method,
            r.url == self.url,
            r.body == self.body,
            r.header_pairs() == with_header(self.header_pairs(), name@, value@),
    {
        let headers = set_header(&self.headers, name, value);
        PreparedRequest { method: self.method, url: self.url, headers, body: self.body }
    }

    /// Sets the body, in place of any former one.
    pub fn body(self, body: String) -> (r: PreparedRequest)
        ensures
            r.method == self.method,
            r.url == self.url,
            r.headers == self.headers,
            r.body == Some(body),
    {
        PreparedRequest {
            method: self.method,
            url: self.url,
            headers: self.headers,
            body: Some(body),
        }
    }
}

} // verus!
