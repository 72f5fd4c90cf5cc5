//! The capability set of an API operation.

use vstd::prelude::*;
use crate::client::auth::AuthStrategy;
use crate::client::query::QueryPairs;
use crate::client::request::{HttpRequestHeaders, Method, RequestStrategy, JSON_MEDIA_TYPE};

verus! {

/// Which of its answers an operation gives in place of the defaults.
pub struct Overrides {
    /// It declares headers of its own.
    pub headers: bool,
    /// It has query parameters.
    pub query: bool,
    /// It has a request body.
    pub request_body: bool,
    /// It is sent with another verb than `GET`.
    pub request_method: bool,
    /// It is sent without a token refresh.
    pub auth_strategy: bool,
    /// It has a retry policy of its own.
    pub request_strategy: bool,
}

impl Overrides {
    /// Every answer is the default.
    pub open spec fn none() -> Overrides {
        Overrides {
            headers: false,
            query: false,
            request_body: false,
            request_method: false,
            auth_strategy: false,
            request_strategy: false,
        }
    }
}

/// What every API operation tells the engine: where the request goes, with
/// which verb, parameters, body and headers, whether it needs a fresh token,
/// and how often it may be retried. An operation states the path and
/// overrides what differs from the defaults; every answer that it does not
/// name in `overrides` is the default.
pub trait Endpoint {
    /// The type of the query parameters; `()` for none.
    type QueryParams: QueryPairs;

    /// The type of the request body; `()` for none.
    type RequestBody;

    /// The type that a successful response is read as.
    type ResponseBody;

    /// The answers that the operation gives in place of the defaults; none
    /// unless it says so.
    open spec fn overrides(&self) -> Overrides {
        Overrides::none()
    }

    /// The path below the base URL, without a leading slash.
    fn path(&self) -> String;

    /// The headers of the request; by default those of a JSON request
    /// without credentials.
    fn headers(&self) -> (r: HttpRequestHeaders)
        ensures
            !self.overrides().headers ==> r.authorization@ == Seq::<char>::empty()
                && r.content_type@ == JSON_MEDIA_TYPE@,
    {
        HttpRequestHeaders::default()
    }

    /// The query parameters; by default none.
    fn query(&self) -> (r: Option<Self::QueryParams>)
        ensures
            !self.overrides().query ==> r is None,
    {
        None
    }

    /// The request body; by default none.
    fn request_body(&self) -> (r: Option<Self::RequestBody>)
        ensures
            !self.overrides().request_body ==> r is None,
    {
        None
    }

    /// The verb; by default `GET`.
    fn request_method(&self) -> (r: Method)
        ensures
            !self.overrides().request_method ==> r == Method::Get,
    {
        Method::Get
    }

    /// Whether the call needs a fresh token; by default it does.
    fn auth_strategy(&self) -> (r: AuthStrategy)
        ensures
            !self.overrides().auth_strategy ==> r == AuthStrategy::TokenRefresh,
    {
        AuthStrategy::TokenRefresh
    }

    /// The retry policy; by default a single attempt.
    fn request_strategy(&self) -> (r: RequestStrategy)
        ensures
            !self.overrides().request_strategy ==> r == RequestStrategy::Once,
    {
        RequestStrategy::default()
    }
}

/// The response body of an operation that answers with nothing.
#[derive(Clone, Copy, Debug, PartialEq, Eq, Structural)]
pub struct EmptyResponseBody {}

} // verus!
