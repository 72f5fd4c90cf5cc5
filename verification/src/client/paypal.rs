//! The client: configuration, URL composition and request preparation.

use vstd::prelude::*;
use vstd::utf8::{encode_utf8, is_ascii_chars, is_ascii_chars_encode_utf8};
use crate::client::app_info::AppInfo;
use crate::client::auth::{
    AuthData, AuthDataView, AuthResponse, Authenticate, CLIENT_CREDENTIALS, GRANT_TYPE,
    TOKEN_PATH,
};
use crate::client::clock::unix_time;
use crate::client::encoding::{
    all_plain, base64_encode, base64_fits, base64_standard, encode_form, form_error_message,
    form_text, joined_pairs, json_error_message, json_text, json_to_string,
    lemma_joined_pairs_not_empty, pair_text,
    query_error_message,
};
use crate::client::endpoint::Endpoint;
use crate::client::headers::{not_named, with_header};
use crate::client::text::same_name;
use crate::client::error::PayPalError;
use crate::client::query::{
    encode_query, lemma_paging_pairs_plain, query_text, QueryPairs, QueryParams,
};
use crate::client::request::{
    HttpRequestHeaders, Method, PreparedRequest, RequestUrl, AUTHORIZATION, CONTENT_TYPE,
    FORM_MEDIA_TYPE, JSON_MEDIA_TYPE, USER_AGENT_HEADER,
};
use crate::client::web_address::{
    parsed_url, set_url_query, url_edit_fits, url_text, url_with_path, url_with_query,
};

verus! {

/// The user agent under which the client's requests go out.
pub const USER_AGENT: &'static str = "PayPal/v2 Rust Bindings/0.1.0";

/// The provider's two environments.
#[derive(Copy, Clone, Debug, PartialEq, Eq, Structural)]
pub enum Environment {
    Sandbox,
    Live,
}

impl Environment {
    /// The environment's name.
    pub open spec fn name(self) -> Seq<char> {
        match self {
            Environment::Sandbox => "sandbox"@,
            Environment::Live => "live"@,
        }
    }

    /// The host that serves the environment.
    pub open spec fn host(self) -> RequestUrl {
        match self {
            Environment::Sandbox => RequestUrl::Sandbox,
            Environment::Live => RequestUrl::Live,
        }
    }

    /// The environment's name: `sandbox` or `live`.
    pub fn as_str(&self) -> (r: &'static str)
        ensures
            r@ == self.name(),
    {
        match self {
            Environment::Sandbox => "sandbox",
            Environment::Live => "live",
        }
    }

    /// The environment's name, as an owned text.
    pub fn to_string(&self) -> (r: String)
        ensures
            r@ == self.name(),
    {
        self.as_str().to_owned()
    }

    /// The host that serves the environment.
    pub fn request_url(&self) -> (r: RequestUrl)
        ensures
            r == self.host(),
    {
        match self {
            Environment::Sandbox => RequestUrl::Sandbox,
            Environment::Live => RequestUrl::Live,
        }
    }
}

impl AsRef<str> for Environment {
    fn as_ref(&self) -> (r: &str)
        ensures
            r@ == self.name(),
    {
        self.as_str()
    }
}

/// User name and secret as they are encoded for Basic authentication: the
/// name, a colon, the secret, in UTF-8.
pub open spec fn credential_bytes(username: Seq<char>, client_secret: Seq<char>) -> Seq<u8> {
    encode_utf8(username + seq![':'] + client_secret)
}

/// True where the credentials are short enough for their Base64 text to be
/// sized. Every pair of texts that fits a machine's memory is.
pub open spec fn credentials_fit(username: Seq<char>, client_secret: Seq<char>) -> bool {
    base64_fits(credential_bytes(username, client_secret).len())
}

/// The value of the `Authorization` header of the Basic scheme: the word
/// `Basic`, a space, and the Base64 text of the credentials.
pub open spec fn basic_auth_text(username: Seq<char>, client_secret: Seq<char>) -> Seq<char> {
    "Basic "@ + base64_standard(credential_bytes(username, client_secret))
}

/// Writes the Basic `Authorization` value of a user name and secret; `None`
/// where the credentials are too long to encode.
pub fn basic_auth(username: &str, client_secret: &str) -> (r: Option<String>)
    ensures
        r is Some <==> credentials_fit(username@, client_secret@),
        r is Some ==> r->0@ == basic_auth_text(username@, client_secret@),
{
    proof {
        reveal_strlit(":");
    }
    let mut credentials = username.to_owned();
    credentials.append(":");
    credentials.append(client_secret);
    assert(credentials@ =~= username@ + seq![':'] + client_secret@);
    let bytes = credentials.as_str().as_bytes();
    if bytes.len() / 3 > (usize::MAX - 4) / 4 {
        return None;
    }
    let encoded = base64_encode(bytes);
    let mut out = "Basic ".to_owned();
    out.append(encoded.as_str());
    Some(out)
}

/// Writes the Basic `Authorization` value of a user name and secret.
pub fn get_basic_auth_for_user_service(username: &str, client_secret: &str) -> (r: String)
    requires
        credentials_fit(username@, client_secret@),
    ensures
        r@ == basic_auth_text(username@, client_secret@),
{
    match basic_auth(username, client_secret) {
        Some(value) => value,
        None => String::new(),
    }
}

/// The longest base URL that a client is built on, in characters.
pub const MAX_BASE_URL_CHARS: usize = 0x10_0000;

/// The base URL of an environment: the serialization of its host's address,
/// where that parses as a URL.
pub open spec fn environment_base(environment: Environment) -> Option<Seq<char>> {
    parsed_url(environment.host().text())
}

/// True where a client can be built: the credentials can be encoded, and the
/// environment's address parses to a base URL of acceptable length.
pub open spec fn constructible(
    username: Seq<char>,
    client_secret: Seq<char>,
    environment: Environment,
) -> bool {
    &&& credentials_fit(username, client_secret)
    &&& match environment_base(environment) {
        Some(base) => base.len() <= MAX_BASE_URL_CHARS,
        None => false,
    }
}

/// The message of the error with which no client can be built: that the
/// credentials cannot be encoded, or else that the environment's address is
/// no acceptable URL.
pub open spec fn construction_failure(username: Seq<char>, client_secret: Seq<char>) -> Seq<char> {
    if !credentials_fit(username, client_secret) {
        "Could not encode credentials"@
    } else {
        "Could not parse environment Url"@
    }
}

/// The URL of a path below a base URL, and of the query string of a sequence
/// of pairs: without a query component where the query string is empty;
/// `None` where a pair cannot be encoded or the URL would outgrow what a URL
/// can hold.
pub open spec fn composed_url(
    base: Seq<char>,
    path: Seq<char>,
    pairs: Seq<(Seq<char>, Seq<char>)>,
) -> Option<Seq<char>> {
    let plain = url_with_path(base, path);
    match query_text(pairs) {
        None => None,
        Some(query) => if query.len() == 0 {
            Some(plain)
        } else if url_edit_fits(plain, query) {
            Some(url_with_query(plain, query))
        } else {
            None
        },
    }
}

/// The URL of a path below a base URL and of plain query pairs, which are
/// written as they are: without a query component where there are no pairs;
/// `None` where the URL would outgrow what a URL can hold.
pub open spec fn plain_url(
    base: Seq<char>,
    path: Seq<char>,
    pairs: Seq<(Seq<char>, Seq<char>)>,
) -> Option<Seq<char>> {
    let plain = url_with_path(base, path);
    let query = joined_pairs(pairs);
    if query.len() == 0 {
        Some(plain)
    } else if url_edit_fits(plain, query) {
        Some(url_with_query(plain, query))
    } else {
        None
    }
}

/// The configuration of a client and its current token.
#[derive(Debug)]
pub struct Client {
    default_headers: HttpRequestHeaders,
    auth_data: AuthData,
    user_agent: String,
    client_secret: String,
    username: String,
    environment: Environment,
    base_url: http_types::Url,
}

/// What a client is made of, as plain values.
pub struct ClientView {
    /// The user name of the credentials.
    pub username: Seq<char>,
    /// The secret of the credentials.
    pub client_secret: Seq<char>,
    /// The environment that the client talks to.
    pub environment: Environment,
    /// The serialization of the base URL.
    pub base_url: Seq<char>,
    /// The user agent.
    pub user_agent: Seq<char>,
    /// The headers that requests carry by default.
    pub default_headers: HttpRequestHeaders,
    /// The token under which authenticated calls go out.
    pub auth_data: AuthDataView,
}

impl View for Client {
    type V = ClientView;

    closed spec fn view(&self) -> ClientView {
        ClientView {
            username: self.username@,
            client_secret: self.client_secret@,
            environment: self.environment,
            base_url: url_text(self.base_url),
            user_agent: self.user_agent@,
            default_headers: self.default_headers,
            auth_data: self.auth_data@,
        }
    }
}

impl Clone for Client {
    /// A copy with the same configuration and the same token. A copy of a
    /// client that meets the invariant meets it too.
    fn clone(&self) -> (r: Client)
        ensures
            r@ == self@,
            r.wf() == self.wf(),
    {
        Client {
            default_headers: self.default_headers.clone(),
            auth_data: self.auth_data.clone(),
            user_agent: self.user_agent.clone(),
            client_secret: self.client_secret.clone(),
            username: self.username.clone(),
            environment: self.environment,
            base_url: self.base_url.clone(),
        }
    }
}

impl Client {
    /// The invariant of a client: its credentials can be encoded, and its
    /// base URL is that of its environment.
    pub open spec fn wf(&self) -> bool {
        &&& credentials_fit(self@.username, self@.client_secret)
        &&& environment_base(self@.environment) == Some(self@.base_url)
        &&& self@.base_url.len() <= MAX_BASE_URL_CHARS
    }

    /// A client for an environment, with the given credentials and no token
    /// yet. It fails with a `LibraryError` exactly where the credentials
    /// cannot be encoded or the environment's address is no acceptable URL.
    pub fn new(username: String, client_secret: String, environment: Environment) -> (r: Result<
        Client,
        Box<PayPalError>,
    >)
        ensures
            r is Ok <==> constructible(username@, client_secret@, environment),
            match r {
                Ok(client) => {
                    &&& client.wf()
                    &&& client@.username == username@
                    &&& client@.client_secret == client_secret@
                    &&& client@.environment == environment
                    &&& client@.user_agent == USER_AGENT@
                    &&& client@.default_headers.authorization@ == basic_auth_text(
                        username@,
                        client_secret@,
                    )
                    &&& client@.default_headers.content_type@ == JSON_MEDIA_TYPE@
                    &&& client@.auth_data == AuthDataView::unauthenticated()
                },
                Err(error) => {
                    &&& *error is LibraryError
                    &&& error->LibraryError_0@ == construction_failure(username@, client_secret@)
                },
            },
    {
        let authorization = match basic_auth(username.as_str(), client_secret.as_str()) {
            Some(value) => value,
            None => {
                return Err(
                    Box::new(PayPalError::LibraryError("Could not encode credentials".to_owned())),
                );
            },
        };
        let base_url = match environment.request_url().as_url() {
            Ok(url) => url,
            Err(_) => {
                return Err(
                    Box::new(
                        PayPalError::LibraryError("Could not parse environment Url".to_owned()),
                    ),
                );
            },
        };
        if base_url.as_str().unicode_len() > MAX_BASE_URL_CHARS {
            return Err(
                Box::new(PayPalError::LibraryError("Could not parse environment Url".to_owned())),
            );
        }
        Ok(
            Client {
                environment,
                client_secret,
                username,
                default_headers: HttpRequestHeaders::new(authorization),
                base_url,
                user_agent: USER_AGENT.to_owned(),
                auth_data: AuthData::default(),
            },
        )
    }

    /// The environment that the client talks to.
    pub fn environment(&self) -> (r: Environment)
        ensures
            r == self@.environment,
    {
        self.environment
    }

    /// The user agent under which the client's requests go out.
    pub fn user_agent(&self) -> (r: &str)
        ensures
            r@ == self@.user_agent,
    {
        self.user_agent.as_str()
    }

    /// The headers that requests carry by default.
    pub fn default_headers(&self) -> (r: &HttpRequestHeaders)
        ensures
            *r == self@.default_headers,
    {
        &self.default_headers
    }

    /// The token under which authenticated calls go out.
    pub fn auth_data(&self) -> (r: &AuthData)
        ensures
            r@ == self@.auth_data,
    {
        &self.auth_data
    }

    /// The base URL.
    pub fn base_url(&self) -> (r: &http_types::Url)
        ensures
            url_text(*r) == self@.base_url,
    {
        &self.base_url
    }

    /// Tells whether a path can be set on the base URL: whether the URL
    /// would stay within the 32 bits in which a URL counts its bytes.
    pub fn path_fits(&self, request_path: &str) -> (r: bool)
        ensures
            r == url_edit_fits(self@.base_url, request_path@),
    {
        let base_chars = self.base_url.as_str().unicode_len() as u128;
        let path_bytes = request_path.as_bytes().len() as u128;
        base_chars + 3 * path_bytes + 16 <= 0xFFFF_FFFF
    }

    /// Composes the URL of a path below the base URL. The path replaces
    /// that of the base URL; the client is left as it was. The result
    /// depends on the environment and the path alone.
    pub fn compose_url(&self, request_path: &str) -> (r: http_types::Url)
        requires
            self.wf(),
            url_edit_fits(self@.base_url, request_path@),
        ensures
            url_text(r) == url_with_path(self@.base_url, request_path@),
            url_text(r) == url_with_path(
                environment_base(self@.environment)->0,
                request_path@,
            ),
    {
        let mut url = self.base_url.clone();
        url.set_path(request_path);
        url
    }

    /// Composes the URL of a path and a sequence of query pairs. Where the
    /// pairs give an empty query string the URL has no query component. It
    /// fails with a `LibraryError` exactly where a pair cannot be encoded or
    /// the URL would outgrow what a URL can hold.
    pub fn compose_url_with_pairs(&self, request_path: &str, pairs: &Vec<(String, String)>) -> (r:
        Result<http_types::Url, PayPalError>)
        requires
            self.wf(),
            url_edit_fits(self@.base_url, request_path@),
        ensures
            match r {
                Ok(url) => composed_url(self@.base_url, request_path@, pairs.deep_view()) == Some(
                    url_text(url),
                ),
                Err(error) => {
                    &&& composed_url(self@.base_url, request_path@, pairs.deep_view()) is None
                    &&& error is LibraryError
                },
            },
            all_plain(pairs.deep_view()) ==> query_text(pairs.deep_view()) == Some(
                joined_pairs(pairs.deep_view()),
            ),
    {
        let mut url = self.compose_url(request_path);
        let params = match encode_query(pairs) {
            Ok(text) => text,
            Err(error) => {
                return Err(PayPalError::LibraryError(query_error_message(&error)));
            },
        };
        if params.as_str().is_empty() {
            return Ok(url);
        }
        let url_chars = url.as_str().unicode_len() as u128;
        let query_bytes = params.as_str().as_bytes().len() as u128;
        if url_chars + 3 * query_bytes + 16 > 0xFFFF_FFFF {
            return Err(PayPalError::LibraryError("Url is too long".to_owned()));
        }
        set_url_query(&mut url, params.as_str());
        Ok(url)
    }

    /// Composes the URL of a path and query parameters. The parameters that
    /// are set are written as `key=value`, joined by `&`, in the order
    /// `page`, `page_size`, `total_count_required`; where none is set the
    /// URL has no query component. It fails, with a `LibraryError`, only
    /// where the URL would outgrow what a URL can hold.
    pub fn compose_url_with_query(&self, request_path: &str, query: &QueryParams) -> (r: Result<
        http_types::Url,
        PayPalError,
    >)
        requires
            self.wf(),
            url_edit_fits(self@.base_url, request_path@),
        ensures
            query_text(query.pairs()) == Some(joined_pairs(query.pairs())),
            match r {
                Ok(url) => plain_url(self@.base_url, request_path@, query.pairs()) == Some(
                    url_text(url),
                ),
                Err(error) => {
                    &&& plain_url(self@.base_url, request_path@, query.pairs()) is None
                    &&& error is LibraryError
                },
            },
    {
        proof {
            lemma_paging_pairs_plain(*query);
        }
        let pairs = query.to_pairs();
        self.compose_url_with_pairs(request_path, &pairs)
    }

    /// Names the calling application in the user agent: a space and the
    /// application's identification are appended to it.
    pub fn with_app_info(self, app_info: &AppInfo) -> (r: Client)
        ensures
            r@ == (ClientView {
                user_agent: self@.user_agent + seq![' '] + app_info.text(),
                ..self@
            }),
    {
        proof {
            reveal_strlit(" ");
        }
        let mut client = self;
        client.user_agent.append(" ");
        client.user_agent.append(app_info.to_string().as_str());
        assert(client@.user_agent =~= self@.user_agent + seq![' '] + app_info.text());
        client
    }

    /// Adds the headers that a descriptor declares to a request, in their
    /// order, after those that the request has.
    pub fn set_request_headers(&self, request: PreparedRequest, headers: &HttpRequestHeaders) -> (r:
        PreparedRequest)
        ensures
            r.method == request.method,
            r.url == request.url,
            r.body == request.body,
            r.header_pairs() == request.header_pairs() + headers.pairs(),
    {
        let pairs = headers.to_vec();
        let mut request_builder = request;
        let mut i: usize = 0;
        assert(pairs.deep_view().take(0) =~= Seq::empty());
        assert(request.header_pairs() + Seq::empty() =~= request.header_pairs());
        while i < pairs.len()
            invariant
                i <= pairs.len(),
                request_builder.method == request.method,
                request_builder.url == request.url,
                request_builder.body == request.body,
                request_builder.header_pairs() == request.header_pairs() + pairs.deep_view().take(
                    i as int,
                ),
            decreases pairs.len() - i,
        {
            let ghost before = request_builder.header_pairs();
            request_builder = request_builder.header(pairs[i].0.as_str(), pairs[i].1.as_str());
            proof {
                let all = pairs.deep_view();
                assert(all[i as int] == (pairs@[i as int].0@, pairs@[i as int].1@));
                assert(all.take(i + 1) =~= all.take(i as int).push(all[i as int]));
                assert(before.push(all[i as int]) =~= request.header_pairs() + all.take(i + 1));
            }
            i += 1;
        }
        assert(pairs.deep_view().take(i as int) =~= pairs.deep_view());
        request_builder
    }
}

/// The request of the authentication handshake, and how often it may be
/// sent again after a transient failure.
#[derive(Clone, Debug)]
pub struct TokenRequest {
    /// The request to the token endpoint.
    pub request: PreparedRequest,
    /// The number of retries that the transport may make.
    pub max_retries: u32,
}

/// The form fields of a client-credentials grant.
pub open spec fn grant_pairs() -> Seq<(Seq<char>, Seq<char>)> {
    seq![(GRANT_TYPE@, CLIENT_CREDENTIALS@)]
}

/// The headers of the handshake: the form media type, then the Basic
/// credentials.
pub open spec fn handshake_headers(username: Seq<char>, client_secret: Seq<char>) -> Seq<
    (Seq<char>, Seq<char>),
> {
    seq![
        (CONTENT_TYPE@, FORM_MEDIA_TYPE@),
        (AUTHORIZATION@, basic_auth_text(username, client_secret)),
    ]
}

proof fn lemma_handshake_headers(declared: Seq<(Seq<char>, Seq<char>)>, basic: Seq<char>)
    requires
        declared == seq![(AUTHORIZATION@, basic), (CONTENT_TYPE@, FORM_MEDIA_TYPE@)],
    ensures
        with_header(declared, AUTHORIZATION@, basic) == seq![
            (CONTENT_TYPE@, FORM_MEDIA_TYPE@),
            (AUTHORIZATION@, basic),
        ],
{
    reveal_strlit("Authorization");
    reveal_strlit("Content-Type");
    reveal(Seq::filter);
    let keep = not_named(AUTHORIZATION@);
    assert(same_name(AUTHORIZATION@, AUTHORIZATION@));
    assert(!same_name(CONTENT_TYPE@, AUTHORIZATION@));
    let first = declared.drop_last();
    assert(first =~= seq![(AUTHORIZATION@, basic)]);
    assert(first.drop_last() =~= Seq::empty());
    assert(first.drop_last().filter(keep) =~= Seq::empty());
    assert(first.filter(keep) =~= Seq::empty());
    assert(declared.filter(keep) =~= seq![(CONTENT_TYPE@, FORM_MEDIA_TYPE@)]);
    assert(with_header(declared, AUTHORIZATION@, basic) =~= seq![
        (CONTENT_TYPE@, FORM_MEDIA_TYPE@),
        (AUTHORIZATION@, basic),
    ]);
}

impl Client {
    /// True where `other` is this client but for the token.
    pub open spec fn same_configuration(&self, other: &Client) -> bool {
        other@ == (ClientView { auth_data: other@.auth_data, ..self@ })
    }

    /// Builds the request of the authentication handshake: a `POST` to the
    /// token endpoint with the form-encoded client-credentials grant as its
    /// body, the form media type and the Basic credentials as its headers,
    /// and the retry count of the handshake's policy. The grant is plain
    /// text, which is always encoded, so the request is always built.
    pub fn authentication_request(&self) -> (r: Result<TokenRequest, PayPalError>)
        requires
            self.wf(),
        ensures
            r is Ok,
            r->Ok_0.request.method == Method::Post,
            url_text(r->Ok_0.request.url) == url_with_path(self@.base_url, TOKEN_PATH@),
            r->Ok_0.request.body_text() == Some(pair_text(GRANT_TYPE@, CLIENT_CREDENTIALS@)),
            r->Ok_0.request.body_text() == form_text(grant_pairs()),
            r->Ok_0.request.header_pairs() == handshake_headers(
                self@.username,
                self@.client_secret,
            ),
            r->Ok_0.max_retries == 0,
    {
        proof {
            reveal_strlit("v1/oauth2/token");
            is_ascii_chars_encode_utf8(TOKEN_PATH@);
            reveal_strlit("grant_type");
            reveal_strlit("client_credentials");
        }
        let authorization = get_basic_auth_for_user_service(
            self.username.as_str(),
            self.client_secret.as_str(),
        );
        let endpoint = Authenticate::new(authorization);
        let fields = match endpoint.request_body() {
            Some(body) => body.to_pairs(),
            None => Vec::new(),
        };
        assert(fields.deep_view() =~= grant_pairs());
        assert(all_plain(grant_pairs()));
        assert(joined_pairs(grant_pairs()) == pair_text(GRANT_TYPE@, CLIENT_CREDENTIALS@));
        let body = match encode_form(&fields) {
            Ok(text) => text,
            Err(error) => {
                return Err(PayPalError::LibraryError(form_error_message(&error)));
            },
        };
        let url = self.compose_url(endpoint.path().as_str());
        let mut request = PreparedRequest::new(endpoint.request_method(), url).body(body);
        let retries = endpoint.request_strategy().max_retries();
        let declared = endpoint.headers();
        request = self.set_request_headers(request, &declared);
        proof {
            assert(request.header_pairs() =~= seq![
                (AUTHORIZATION@, endpoint.authorization@),
                (CONTENT_TYPE@, FORM_MEDIA_TYPE@),
            ]);
            lemma_handshake_headers(request.header_pairs(), endpoint.authorization@);
        }
        request = request.set_header(AUTHORIZATION, endpoint.authorization.as_str());
        Ok(TokenRequest { request, max_retries: retries })
    }

    /// What ending an authentication at a reading `now` of the clock comes
    /// to. A token response whose expiry fits the clock's range succeeds and
    /// leaves the state that the response issues at `now`. One whose expiry
    /// does not fit is a `LibraryError`. A failure is handed on as it is.
    /// Every failure leaves the token as it was.
    pub open spec fn finishes_at(
        before: AuthDataView,
        outcome: Result<AuthResponse, PayPalError>,
        now: u64,
        result: Result<(), PayPalError>,
        after: AuthDataView,
    ) -> bool {
        match outcome {
            Ok(response) => if now + response.expires_in <= u64::MAX {
                result is Ok && after == AuthDataView::issued(response, now)
            } else {
                &&& result is Err
                &&& result->Err_0 is LibraryError
                &&& after == before
            },
            Err(error) => result == Err::<(), PayPalError>(error) && after == before,
        }
    }

    /// Ends an authentication whose response, if any, arrived at `now`. A
    /// token response replaces token, type and expiry as a whole. A failure
    /// is handed on and leaves the token as it was, and so does a lifetime
    /// that would carry the expiry beyond the clock's range, which is a
    /// `LibraryError`.
    pub fn finish_authentication_at(
        &mut self,
        outcome: Result<AuthResponse, PayPalError>,
        now: u64,
    ) -> (r: Result<(), PayPalError>)
        requires
            old(self).wf(),
        ensures
            final(self).wf(),
            old(self).same_configuration(final(self)),
            Client::finishes_at(old(self)@.auth_data, outcome, now, r, final(self)@.auth_data),
    {
        match outcome {
            Ok(response) => {
                if response.expires_in <= u64::MAX - now {
                    self.auth_data.update_at(response, now);
                    Ok(())
                } else {
                    Err(PayPalError::LibraryError("Token lifetime is out of range".to_owned()))
                }
            },
            Err(error) => Err(error),
        }
    }

    /// Ends an authentication whose response, if any, arrived now: it does
    /// what `finish_authentication_at` does at the reading of the clock. A
    /// failure is handed on as it is; a token response succeeds exactly
    /// where its expiry fits the clock's range at that reading, which a
    /// lifetime of zero always does, and fails with a `LibraryError` where
    /// it does not.
    pub fn finish_authentication(&mut self, outcome: Result<AuthResponse, PayPalError>) -> (r:
        Result<(), PayPalError>)
        requires
            old(self).wf(),
        ensures
            final(self).wf(),
            old(self).same_configuration(final(self)),
            exists|now: u64| #[trigger]
                Client::finishes_at(
                    old(self)@.auth_data,
                    outcome,
                    now,
                    r,
                    final(self)@.auth_data,
                ),
            outcome is Ok && outcome->Ok_0.expires_in == 0 ==> r is Ok,
            outcome is Ok && r is Err ==> r->Err_0 is LibraryError,
            outcome is Err ==> r == Err::<(), PayPalError>(outcome->Err_0),
            r is Err ==> final(self)@.auth_data == old(self)@.auth_data,
    {
        let now = unix_time();
        let result = self.finish_authentication_at(outcome, now);
        assert(Client::finishes_at(old(self)@.auth_data, outcome, now, result, self@.auth_data));
        result
    }
}

/// The headers of a resource request: those that the descriptor declares,
/// then the user agent.
pub open spec fn request_headers(declared: HttpRequestHeaders, user_agent: Seq<char>) -> Seq<
    (Seq<char>, Seq<char>),
> {
    declared.pairs().push((USER_AGENT_HEADER@, user_agent))
}

/// The pairs of a descriptor's query parameters; none where it has no
/// parameters.
pub open spec fn pairs_of<Q: QueryPairs>(query: Option<Q>) -> Seq<(Seq<char>, Seq<char>)> {
    match query {
        Some(parameters) => parameters.pairs(),
        None => Seq::empty(),
    }
}

/// True where path, query parameters and headers are what a descriptor
/// answers: each meets what the descriptor's type promises of that accessor.
pub open spec fn described<T: Endpoint>(
    endpoint: &T,
    path: String,
    query: Option<T::QueryParams>,
    headers: HttpRequestHeaders,
) -> bool {
    &&& call_ensures(T::path, (endpoint,), path)
    &&& call_ensures(T::query, (endpoint,), query)
    &&& call_ensures(T::headers, (endpoint,), headers)
}

impl Client {
    /// What building a request comes to. A path that a URL can take in and
    /// whose URL can be composed gives the request with that URL, the verb,
    /// the declared headers followed by the user agent, and the body. Any
    /// other input gives a `LibraryError`.
    pub open spec fn builds(
        &self,
        method: Method,
        path: Seq<char>,
        pairs: Seq<(Seq<char>, Seq<char>)>,
        headers: HttpRequestHeaders,
        body: Option<String>,
        outcome: Result<PreparedRequest, PayPalError>,
    ) -> bool {
        match outcome {
            Ok(request) => {
                &&& url_edit_fits(self@.base_url, path)
                &&& composed_url(self@.base_url, path, pairs) == Some(url_text(request.url))
                &&& request.method == method
                &&& request.body == body
                &&& request.header_pairs() == request_headers(headers, self@.user_agent)
            },
            Err(error) => {
                &&& error is LibraryError
                &&& !url_edit_fits(self@.base_url, path) || composed_url(
                    self@.base_url,
                    path,
                    pairs,
                ) is None
            },
        }
    }

    /// True where `outcome` is the request built from what the descriptor
    /// answers, with the given verb and body.
    pub open spec fn prepares<T: Endpoint>(
        &self,
        method: Method,
        endpoint: &T,
        body: Option<String>,
        outcome: Result<PreparedRequest, PayPalError>,
    ) -> bool {
        exists|path: String, query: Option<T::QueryParams>, headers: HttpRequestHeaders|
            #![trigger described(endpoint, path, query, headers)]
            {
                &&& described(endpoint, path, query, headers)
                &&& self.builds(method, path@, pairs_of(query), headers, body, outcome)
            }
    }

    /// True where `outcome` is the request built from what the descriptor
    /// answers, with the given verb and the JSON text of a value as its body,
    /// or the `LibraryError` of a value that has no JSON text.
    pub open spec fn prepares_json<T: Endpoint>(
        &self,
        method: Method,
        endpoint: &T,
        body: serde_json::Value,
        outcome: Result<PreparedRequest, PayPalError>,
    ) -> bool {
        match json_text(body) {
            Some(text) => exists|written: String|
                written@ == text && #[trigger] self.prepares(
                    method,
                    endpoint,
                    Some(written),
                    outcome,
                ),
            None => outcome is Err && outcome->Err_0 is LibraryError,
        }
    }

    /// Builds the request of a call from what its descriptor says: the verb,
    /// the URL of path and query pairs, the declared headers followed by the
    /// user agent, and the body. It fails with a `LibraryError` exactly where
    /// the path would make the URL outgrow what a URL can hold or the URL
    /// cannot be composed.
    pub fn build_request(
        &self,
        method: Method,
        path: &str,
        pairs: &Vec<(String, String)>,
        headers: &HttpRequestHeaders,
        body: Option<String>,
    ) -> (r: Result<PreparedRequest, PayPalError>)
        requires
            self.wf(),
        ensures
            self.builds(method, path@, pairs.deep_view(), *headers, body, r),
            r is Ok && all_plain(pairs.deep_view()) ==> query_text(pairs.deep_view()) == Some(
                joined_pairs(pairs.deep_view()),
            ),
    {
        if !self.path_fits(path) {
            return Err(PayPalError::LibraryError("Path is too long".to_owned()));
        }
        let url = match self.compose_url_with_pairs(path, pairs) {
            Ok(url) => url,
            Err(error) => {
                return Err(error);
            },
        };
        let mut request = PreparedRequest::new(method, url);
        request = self.set_request_headers(request, headers);
        request = request.header(USER_AGENT_HEADER, self.user_agent.as_str());
        assert(request.header_pairs() =~= request_headers(*headers, self@.user_agent));
        Ok(match body {
            Some(text) => request.body(text),
            None => request,
        })
    }

    /// Builds the request of a call from its descriptor, with the given verb
    /// and body: the descriptor is asked for path, query parameters and
    /// headers, and the request is built from its answers as `build_request`
    /// says.
    pub fn prepare<T: Endpoint>(&self, method: Method, endpoint: &T, body: Option<String>) -> (r:
        Result<PreparedRequest, PayPalError>)
        requires
            self.wf(),
        ensures
            self.prepares(method, endpoint, body, r),
            r is Ok ==> r->Ok_0.method == method && r->Ok_0.body == body,
            r is Err ==> r->Err_0 is LibraryError,
    {
        let path = endpoint.path();
        let query = endpoint.query();
        let pairs = match &query {
            Some(parameters) => parameters.to_pairs(),
            None => Vec::new(),
        };
        assert(pairs.deep_view() =~= pairs_of(query));
        let headers = endpoint.headers();
        let outcome = self.build_request(method, path.as_str(), &pairs, &headers, body);
        assert(described(endpoint, path, query, headers));
        outcome
    }

    /// Builds the request of a call whose body is the JSON text of a value.
    /// It fails with a `LibraryError` where the value cannot be written as
    /// JSON, and where `prepare` fails.
    pub fn prepare_json<T: Endpoint>(
        &self,
        method: Method,
        endpoint: &T,
        body: &serde_json::Value,
    ) -> (r: Result<PreparedRequest, PayPalError>)
        requires
            self.wf(),
        ensures
            self.prepares_json(method, endpoint, *body, r),
            r is Ok ==> r->Ok_0.method == method && r->Ok_0.body_text() == json_text(*body),
            r is Err ==> r->Err_0 is LibraryError,
    {
        let text = match json_to_string(body) {
            Ok(text) => text,
            Err(error) => {
                return Err(PayPalError::LibraryError(json_error_message(&error)));
            },
        };
        let outcome = self.prepare(method, endpoint, Some(text));
        assert(self.prepares(method, endpoint, Some(text), outcome));
        outcome
    }

    /// Builds the request of a `GET` call: the URL and headers that the
    /// descriptor answers, no body.
    pub fn get<T: Endpoint>(&self, endpoint: &T) -> (r: Result<PreparedRequest, PayPalError>)
        requires
            self.wf(),
        ensures
            self.prepares(Method::Get, endpoint, None, r),
            r is Err ==> r->Err_0 is LibraryError,
    {
        self.prepare(Method::Get, endpoint, None)
    }

    /// Builds the request of a `POST` call: the URL and headers that the
    /// descriptor answers, and the JSON text of `body` as its body.
    pub fn post<T: Endpoint>(&self, endpoint: &T, body: &serde_json::Value) -> (r: Result<
        PreparedRequest,
        PayPalError,
    >)
        requires
            self.wf(),
        ensures
            self.prepares_json(Method::Post, endpoint, *body, r),
            r is Ok ==> r->Ok_0.method == Method::Post && r->Ok_0.body_text() == json_text(
                *body,
            ),
            r is Err ==> r->Err_0 is LibraryError,
    {
        self.prepare_json(Method::Post, endpoint, body)
    }

    /// Builds the request of a `PATCH` call: the URL and headers that the
    /// descriptor answers, and the JSON text of `body` as its body.
    pub fn patch<T: Endpoint>(&self, endpoint: &T, body: &serde_json::Value) -> (r: Result<
        PreparedRequest,
        PayPalError,
    >)
        requires
            self.wf(),
        ensures
            self.prepares_json(Method::Patch, endpoint, *body, r),
            r is Ok ==> r->Ok_0.method == Method::Patch && r->Ok_0.body_text() == json_text(
                *body,
            ),
            r is Err ==> r->Err_0 is LibraryError,
    {
        self.prepare_json(Method::Patch, endpoint, body)
    }

    /// Builds the request of a `DELETE` call: the URL and headers that the
    /// descriptor answers, no body.
    pub fn delete<T: Endpoint>(&self, endpoint: &T) -> (r: Result<PreparedRequest, PayPalError>)
        requires
            self.wf(),
        ensures
            self.prepares(Method::Delete, endpoint, None, r),
            r is Err ==> r->Err_0 is LibraryError,
    {
        self.prepare(Method::Delete, endpoint, None)
    }
}

/// The URL that a client composes depends on its environment and the path
/// alone: whatever two clients for one environment compose for one path has
/// the same text, whatever their credentials, user agents and tokens, and
/// that text is the environment's base URL with the path set.
pub proof fn lemma_compose_depends_on_environment(
    a: Client,
    b: Client,
    path: &str,
    of_a: http_types::Url,
    of_b: http_types::Url,
)
    requires
        a.wf(),
        b.wf(),
        a@.environment == b@.environment,
        call_ensures(Client::compose_url, (&a, path), of_a),
        call_ensures(Client::compose_url, (&b, path), of_b),
    ensures
        a@.base_url == b@.base_url,
        url_text(of_a) == url_text(of_b),
        url_text(of_a) == url_with_path(environment_base(a@.environment)->0, path@),
        composed_url(a@.base_url, path@, Seq::empty()) == Some(url_text(of_a)),
{
}

/// Every ASCII path of up to 2^30 characters can be set on the base URL of
/// a client that meets the invariant.
pub proof fn lemma_ascii_path_fits(client: Client, path: Seq<char>)
    requires
        client.wf(),
        is_ascii_chars(path),
        path.len() <= 0x4000_0000,
    ensures
        url_edit_fits(client@.base_url, path),
{
    is_ascii_chars_encode_utf8(path);
}

/// Composing is repeatable: whatever a client composes for one path, at any
/// two times, has the same text. The client is read and never changed, so
/// what was composed in between does not matter.
pub proof fn lemma_compose_is_repeatable(
    client: Client,
    path: &str,
    first: http_types::Url,
    again: http_types::Url,
)
    requires
        call_ensures(Client::compose_url, (&client, path), first),
        call_ensures(Client::compose_url, (&client, path), again),
    ensures
        url_text(again) == url_text(first),
{
}

/// Query parameters of which at least one is set give a query string that
/// is not empty, so the URL gets a query component: that string, set on the
/// URL of the path, wherever the URL can hold it.
pub proof fn lemma_set_parameter_adds_query(base: Seq<char>, path: Seq<char>, query: QueryParams)
    requires
        query.page is Some || query.page_size is Some || query.total_count_required is Some,
    ensures
        query.pairs().len() > 0,
        joined_pairs(query.pairs()).len() > 0,
        plain_url(base, path, query.pairs()) == if url_edit_fits(
            url_with_path(base, path),
            joined_pairs(query.pairs()),
        ) {
            Some(url_with_query(url_with_path(base, path), joined_pairs(query.pairs())))
        } else {
            None
        },
{
    lemma_joined_pairs_not_empty(query.pairs());
}

/// Query parameters of which none is set contribute no pair, and a URL
/// composed with no pairs is the URL of the path alone: it gets no query
/// component.
pub proof fn lemma_empty_query_adds_nothing(base: Seq<char>, path: Seq<char>, query: QueryParams)
    requires
        query.page is None,
        query.page_size is None,
        query.total_count_required is None,
    ensures
        query.pairs() == Seq::<(Seq<char>, Seq<char>)>::empty(),
        query_text(query.pairs()) == Some(Seq::<char>::empty()),
        composed_url(base, path, query.pairs()) == Some(url_with_path(base, path)),
{
    assert(query.pairs() =~= Seq::empty());
}

/// A URL gets a query component exactly where the query string of its pairs
/// is not empty, and then the component is that query string, set on the URL
/// of the path.
pub proof fn lemma_query_component(
    base: Seq<char>,
    path: Seq<char>,
    pairs: Seq<(Seq<char>, Seq<char>)>,
)
    requires
        composed_url(base, path, pairs) is Some,
    ensures
        query_text(pairs) is Some,
        query_text(pairs)->0.len() == 0 ==> composed_url(base, path, pairs) == Some(
            url_with_path(base, path),
        ),
        query_text(pairs)->0.len() > 0 ==> composed_url(base, path, pairs) == Some(
            url_with_query(url_with_path(base, path), query_text(pairs)->0),
        ),
{
}

} // verus!
