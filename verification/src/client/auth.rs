//! The bearer token and its lifetime.

use vstd::prelude::*;
use crate::client::clock::unix_time;
use crate::client::endpoint::{Endpoint, Overrides};
use crate::client::request::{HttpRequestHeaders, Method, RequestStrategy, FORM_MEDIA_TYPE};

verus! {

/// How many seconds before its expiry a token already counts as expiring.
pub const EXPIRY_MARGIN_SECS: u64 = 30;

/// Whether a call needs a fresh bearer token.
#[derive(Clone, Copy, Debug, PartialEq, Eq, Structural)]
pub enum AuthStrategy {
    /// The token is refreshed before the call where it is about to expire.
    TokenRefresh,
    /// The call goes out with whatever token is at hand.
    NoTokenRefresh,
}

/// What the token endpoint answers to a successful client-credentials grant.
#[derive(Clone, Debug, PartialEq, Eq)]
pub struct AuthResponse {
    /// The bearer token.
    pub access_token: String,
    /// The token's type, as the provider names it.
    pub token_type: String,
    /// The token's lifetime in seconds, counted from its issue.
    pub expires_in: u64,
}

/// The token under which authenticated calls go out. It is replaced as a
/// whole by each successful authentication and never changed in part.
#[derive(Debug, PartialEq, Eq)]
pub struct AuthData {
    access_token: String,
    token_type: String,
    expires_at: Option<u64>,
}

/// What a token state holds, as plain values.
pub struct AuthDataView {
    /// The bearer token; empty before the first authentication.
    pub access_token: Seq<char>,
    /// The token's type; empty before the first authentication.
    pub token_type: Seq<char>,
    /// When the token expires, in seconds since the Unix epoch; `None`
    /// before the first authentication.
    pub expires_at: Option<u64>,
}

impl AuthDataView {
    /// The state before any authentication: no token, no type, no expiry.
    pub open spec fn unauthenticated() -> AuthDataView {
        AuthDataView {
            access_token: Seq::empty(),
            token_type: Seq::empty(),
            expires_at: None,
        }
    }

    /// The state that a response leaves when its token was issued at `now`:
    /// the response's token and type, and the expiry at issue time plus
    /// lifetime.
    pub open spec fn issued(response: AuthResponse, now: u64) -> AuthDataView
        recommends
            now + response.expires_in <= u64::MAX,
    {
        AuthDataView {
            access_token: response.access_token@,
            token_type: response.token_type@,
            expires_at: Some((now + response.expires_in) as u64),
        }
    }

    /// The state after a response, whose token was issued at `now`, has been
    /// taken in: that of the response, whatever the state before.
    pub open spec fn updated(self, response: AuthResponse, now: u64) -> AuthDataView
        recommends
            now + response.expires_in <= u64::MAX,
    {
        AuthDataView::issued(response, now)
    }

    /// What taking in a response at a reading `now` of the clock comes to:
    /// it is taken in exactly where the expiry fits the clock's range, and
    /// the state after is the updated one where it is, the old one where it
    /// is not.
    pub open spec fn takes_in(
        self,
        response: AuthResponse,
        now: u64,
        taken: bool,
        after: AuthDataView,
    ) -> bool {
        &&& taken == (now + response.expires_in <= u64::MAX)
        &&& after == if taken {
            self.updated(response, now)
        } else {
            self
        }
    }

    /// True where the token has at most `EXPIRY_MARGIN_SECS` seconds left at
    /// `now`, or where there is no token yet.
    pub open spec fn expiring_at(self, now: u64) -> bool {
        match self.expires_at {
            None => true,
            Some(deadline) => deadline - now <= EXPIRY_MARGIN_SECS,
        }
    }
}

impl View for AuthData {
    type V = AuthDataView;

    closed spec fn view(&self) -> AuthDataView {
        AuthDataView {
            access_token: self.access_token@,
            token_type: self.token_type@,
            expires_at: self.expires_at,
        }
    }
}

impl AuthData {
    /// The state before any authentication: no token, no expiry.
    pub fn new() -> (r: AuthData)
        ensures
            r@ == AuthDataView::unauthenticated(),
    {
        AuthData { access_token: String::new(), token_type: String::new(), expires_at: None }
    }

    /// The bearer token; empty before the first authentication.
    pub fn access_token(&self) -> (r: &str)
        ensures
            r@ == self@.access_token,
    {
        self.access_token.as_str()
    }

    /// The token's type; empty before the first authentication.
    pub fn token_type(&self) -> (r: &str)
        ensures
            r@ == self@.token_type,
    {
        self.token_type.as_str()
    }

    /// When the token expires, in seconds since the Unix epoch; `None`
    /// before the first authentication.
    pub fn expires_at(&self) -> (r: Option<u64>)
        ensures
            r == self@.expires_at,
    {
        self.expires_at
    }

    /// Tells whether the token must be refreshed before a call made at `now`.
    pub fn about_to_expire_at(&self, now: u64) -> (r: bool)
        ensures
            r == self@.expiring_at(now),
    {
        match self.expires_at {
            None => true,
            Some(deadline) => deadline <= now || deadline - now <= EXPIRY_MARGIN_SECS,
        }
    }

    /// Tells whether the token must be refreshed before a call made now. The
    /// answer is that of `about_to_expire_at` at some reading of the clock.
    pub fn about_to_expire(&self) -> (r: bool)
        ensures
            exists|now: u64| r == self@.expiring_at(now),
            self@.expires_at is None ==> r,
    {
        let now = unix_time();
        assert(self@.expiring_at(now) == self@.expiring_at(now));
        self.about_to_expire_at(now)
    }

    /// Replaces token, type and expiry by those of a response received at
    /// `now`. Nothing of the old state is kept.
    pub fn update_at(&mut self, response: AuthResponse, now: u64)
        requires
            now + response.expires_in <= u64::MAX,
        ensures
            final(self)@ == old(self)@.updated(response, now),
            final(self)@ == AuthDataView::issued(response, now),
    {
        *self = AuthData {
            access_token: response.access_token,
            token_type: response.token_type,
            expires_at: Some(now + response.expires_in),
        };
    }

    /// Replaces token, type and expiry by those of a response received now.
    /// The update takes place, and true is returned, exactly where the
    /// expiry fits the clock's range at the reading of the clock; else
    /// nothing changes. A lifetime of zero always fits.
    pub fn update(&mut self, response: AuthResponse) -> (r: bool)
        ensures
            exists|now: u64| old(self)@.takes_in(response, now, r, final(self)@),
            !r ==> *final(self) == *old(self),
            response.expires_in == 0 ==> r,
    {
        let now = unix_time();
        let taken = if response.expires_in <= u64::MAX - now {
            self.update_at(response, now);
            true
        } else {
            false
        };
        assert(old(self)@.takes_in(response, now, taken, self@));
        taken
    }
}

impl Clone for AuthData {
    /// A copy with the same token, type and expiry.
    fn clone(&self) -> (r: AuthData)
        ensures
            r == *self,
            r@ == self@,
    {
        AuthData {
            access_token: self.access_token.clone(),
            token_type: self.token_type.clone(),
            expires_at: self.expires_at,
        }
    }
}

impl Default for AuthData {
    fn default() -> (r: AuthData)
        ensures
            r@ == AuthDataView::unauthenticated(),
    {
        AuthData::new()
    }
}

/// Before any authentication the token counts as expiring, whatever the
/// time.
pub proof fn lemma_unauthenticated_is_expiring(now: u64)
    ensures
        AuthDataView::unauthenticated().expiring_at(now),
{
}

/// Right after an authentication the token counts as expiring exactly where
/// the reported lifetime does not exceed the safety margin: a lifetime
/// beyond the margin gives a token that is not expiring.
pub proof fn lemma_fresh_token_not_expiring(response: AuthResponse, now: u64)
    requires
        now + response.expires_in <= u64::MAX,
    ensures
        AuthDataView::issued(response, now).expiring_at(now) == (response.expires_in
            <= EXPIRY_MARGIN_SECS),
        response.expires_in > EXPIRY_MARGIN_SECS ==> !AuthDataView::issued(
            response,
            now,
        ).expiring_at(now),
{
}

/// A token is never issued with an expiry before its issue, and it stays
/// fresh until the safety margin before its expiry begins.
pub proof fn lemma_expiry_follows_issue(response: AuthResponse, now: u64, later: u64)
    requires
        now + response.expires_in <= u64::MAX,
    ensures
        AuthDataView::issued(response, now).expires_at is Some,
        AuthDataView::issued(response, now).expires_at->0 == now + response.expires_in,
        AuthDataView::issued(response, now).expires_at->0 >= now,
        AuthDataView::issued(response, now).expiring_at(later) == (later + EXPIRY_MARGIN_SECS
            >= now + response.expires_in),
{
}

/// The last writer wins, and wins whole: after two updates the state is
/// that of the second response alone, whatever the state was before and
/// whatever the first response held. Token, type and expiry all come from
/// the second response; nothing of the first is left.
pub proof fn lemma_last_update_wins(
    before: AuthDataView,
    other: AuthDataView,
    first: AuthResponse,
    first_at: u64,
    second: AuthResponse,
    second_at: u64,
)
    requires
        first_at + first.expires_in <= u64::MAX,
        second_at + second.expires_in <= u64::MAX,
    ensures
        before.updated(first, first_at).updated(second, second_at) == other.updated(
            second,
            second_at,
        ),
        before.updated(first, first_at).updated(second, second_at) == (AuthDataView {
            access_token: second.access_token@,
            token_type: second.token_type@,
            expires_at: Some((second_at + second.expires_in) as u64),
        }),
{
}

/// The path of the token endpoint.
pub const TOKEN_PATH: &'static str = "v1/oauth2/token";

/// The key of the grant type in a token request.
pub const GRANT_TYPE: &'static str = "grant_type";

/// The grant type of the client-credentials flow.
pub const CLIENT_CREDENTIALS: &'static str = "client_credentials";

/// The body of a token request.
#[derive(Clone, Debug, PartialEq, Eq)]
pub struct AuthRequestBody {
    /// The grant that is asked for.
    pub grant_type: String,
}

impl AuthRequestBody {
    /// The form fields of the body.
    pub open spec fn pairs(self) -> Seq<(Seq<char>, Seq<char>)> {
        seq![(GRANT_TYPE@, self.grant_type@)]
    }

    /// The body of a client-credentials grant.
    pub fn client_credentials() -> (r: AuthRequestBody)
        ensures
            r.grant_type@ == CLIENT_CREDENTIALS@,
    {
        AuthRequestBody { grant_type: CLIENT_CREDENTIALS.to_owned() }
    }

    /// The form fields of the body, as key/value pairs.
    pub fn to_pairs(&self) -> (r: Vec<(String, String)>)
        ensures
            r.deep_view() == self.pairs(),
    {
        let mut out: Vec<(String, String)> = Vec::new();
        out.push((GRANT_TYPE.to_owned(), self.grant_type.clone()));
        assert(out.deep_view() =~= self.pairs());
        out
    }
}

/// The descriptor of the client-credentials handshake.
#[derive(Clone, Debug)]
pub struct Authenticate {
    /// The Basic `Authorization` value of the client's credentials.
    pub authorization: String,
}

impl Authenticate {
    /// The handshake under the given Basic `Authorization` value.
    pub fn new(authorization: String) -> (r: Authenticate)
        ensures
            r.authorization == authorization,
    {
        Authenticate { authorization }
    }
}

/// A form-encoded `POST` to the token endpoint under the Basic credentials,
/// sent with whatever token there is, and not retried.
impl Endpoint for Authenticate {
    type QueryParams = ();

    type RequestBody = AuthRequestBody;

    type ResponseBody = AuthResponse;

    open spec fn overrides(&self) -> Overrides {
        Overrides {
            headers: true,
            request_body: true,
            request_method: true,
            auth_strategy: true,
            ..Overrides::none()
        }
    }

    fn path(&self) -> (r: String)
        ensures
            r@ == TOKEN_PATH@,
    {
        TOKEN_PATH.to_owned()
    }

    fn headers(&self) -> (r: HttpRequestHeaders)
        ensures
            r.authorization@ == self.authorization@,
            r.content_type@ == FORM_MEDIA_TYPE@,
    {
        HttpRequestHeaders {
            authorization: self.authorization.clone(),
            content_type: FORM_MEDIA_TYPE.to_owned(),
        }
    }

    fn request_body(&self) -> (r: Option<AuthRequestBody>)
        ensures
            r is Some,
            r->0.grant_type@ == CLIENT_CREDENTIALS@,
    {
        Some(AuthRequestBody::client_credentials())
    }

    fn request_method(&self) -> (r: Method)
        ensures
            r == Method::Post,
    {
        Method::Post
    }

    fn auth_strategy(&self) -> (r: AuthStrategy)
        ensures
            r == AuthStrategy::NoTokenRefresh,
    {
        AuthStrategy::NoTokenRefresh
    }

    fn request_strategy(&self) -> (r: RequestStrategy)
        ensures
            r == RequestStrategy::Once,
    {
        RequestStrategy::Once
    }
}

} // verus!
