use paypal_rust::client::auth::{
    AuthData, AuthRequestBody, AuthResponse, AuthStrategy, Authenticate, EXPIRY_MARGIN_SECS,
};
use paypal_rust::client::endpoint::Endpoint;
use paypal_rust::client::error::PayPalError;
use paypal_rust::client::paypal::{
    basic_auth, get_basic_auth_for_user_service, Client, Environment,
};
use paypal_rust::client::request::{Method, RequestStrategy};

fn response(token: &str, lifetime: u64) -> AuthResponse {
    AuthResponse {
        access_token: token.to_string(),
        token_type: "Bearer".to_string(),
        expires_in: lifetime,
    }
}

#[test]
fn basic_auth_of_u_and_p() {
    assert_eq!(get_basic_auth_for_user_service("u", "p"), "Basic dTpw");
    assert_eq!(basic_auth("u", "p"), Some("Basic dTpw".to_string()));
    assert_eq!(
        get_basic_auth_for_user_service("username", "password"),
        "Basic dXNlcm5hbWU6cGFzc3dvcmQ="
    );
    assert_eq!(get_basic_auth_for_user_service("", ""), "Basic Og==");
    assert_eq!(get_basic_auth_for_user_service("é", "ü"), "Basic w6k6w7w=");
    assert_eq!(get_basic_auth_for_user_service(">>>", ""), "Basic Pj4+Og==");
    assert_eq!(get_basic_auth_for_user_service("???", ""), "Basic Pz8/Og==");
    assert_eq!(get_basic_auth_for_user_service("ab", "cd"), "Basic YWI6Y2Q=");
}

#[test]
fn expiring_before_any_authentication() {
    let auth = AuthData::new();
    assert!(auth.about_to_expire());
    assert!(auth.about_to_expire_at(0));
    assert!(auth.about_to_expire_at(1_700_000_000));
    assert!(auth.about_to_expire_at(u64::MAX));
    assert!(AuthData::default().about_to_expire_at(5));
    assert_eq!(AuthData::default(), AuthData::new());
}

#[test]
fn fresh_token_is_not_expiring() {
    let mut auth = AuthData::new();
    auth.update_at(response("t", 3600), 1000);
    assert_eq!(auth.access_token(), "t");
    assert_eq!(auth.token_type(), "Bearer");
    assert_eq!(auth.expires_at(), Some(4600));
    assert!(!auth.about_to_expire_at(1000));
}

#[test]
fn safety_margin_edges() {
    assert_eq!(EXPIRY_MARGIN_SECS, 30);
    let mut auth = AuthData::new();
    auth.update_at(response("t", 31), 1000);
    assert!(!auth.about_to_expire_at(1000));
    assert!(auth.about_to_expire_at(1001));
    auth.update_at(response("t", 30), 1000);
    assert!(auth.about_to_expire_at(1000));
    auth.update_at(response("t", 100), 1000);
    assert!(!auth.about_to_expire_at(1069));
    assert!(auth.about_to_expire_at(1070));
    assert!(auth.about_to_expire_at(1100));
    assert!(auth.about_to_expire_at(5000));
    assert!(!auth.about_to_expire_at(0));
}

#[test]
fn update_replaces_the_whole_value() {
    let mut auth = AuthData::new();
    auth.update_at(response("first", 100), 10);
    auth.update_at(
        AuthResponse {
            access_token: "second".to_string(),
            token_type: "Other".to_string(),
            expires_in: 7,
        },
        20,
    );
    assert_eq!(auth.access_token(), "second");
    assert_eq!(auth.token_type(), "Other");
    assert_eq!(auth.expires_at(), Some(27));
    let mut other = AuthData::new();
    other.update_at(
        AuthResponse {
            access_token: "second".to_string(),
            token_type: "Other".to_string(),
            expires_in: 7,
        },
        20,
    );
    assert_eq!(auth, other);
}

#[test]
fn update_from_the_clock() {
    let mut auth = AuthData::new();
    assert!(auth.update(response("t", 3600)));
    assert_eq!(auth.access_token(), "t");
    assert!(auth.expires_at().unwrap() >= 3600);
    assert!(!auth.about_to_expire());
    let before = auth.clone();
    assert!(!auth.update(response("huge", u64::MAX)));
    assert_eq!(auth, before);
}

#[test]
fn handshake_descriptor() {
    let endpoint = Authenticate::new("Basic dTpw".to_string());
    assert_eq!(endpoint.path(), "v1/oauth2/token");
    assert_eq!(endpoint.request_method(), Method::Post);
    assert_eq!(endpoint.auth_strategy(), AuthStrategy::NoTokenRefresh);
    assert_eq!(endpoint.request_strategy(), RequestStrategy::Once);
    assert_eq!(endpoint.request_strategy().get_retry_count(), None);
    assert_eq!(endpoint.headers().authorization, "Basic dTpw");
    assert_eq!(endpoint.headers().content_type, "application/x-www-form-urlencoded");
    let body = endpoint.request_body().unwrap();
    assert_eq!(body, AuthRequestBody::client_credentials());
    assert_eq!(
        body.to_pairs(),
        vec![("grant_type".to_string(), "client_credentials".to_string())]
    );
    assert!(endpoint.query().is_none());
}

#[test]
fn retry_counts() {
    assert_eq!(RequestStrategy::default(), RequestStrategy::Once);
    assert_eq!(RequestStrategy::Once.max_retries(), 0);
    assert_eq!(RequestStrategy::Retry(3).max_retries(), 3);
    assert_eq!(RequestStrategy::Retry(3).get_retry_count(), Some(3));
}

#[test]
fn handshake_request() {
    let client = Client::new("u".to_string(), "p".to_string(), Environment::Sandbox).unwrap();
    let token_request = client.authentication_request().unwrap();
    assert_eq!(token_request.max_retries, 0);
    let request = token_request.request;
    assert_eq!(request.method, Method::Post);
    assert_eq!(request.url.as_str(), "https://api-m.sandbox.paypal.com/v1/oauth2/token");
    assert_eq!(request.body, Some("grant_type=client_credentials".to_string()));
    assert_eq!(
        request.headers,
        vec![
            ("Content-Type".to_string(), "application/x-www-form-urlencoded".to_string()),
            ("Authorization".to_string(), "Basic dTpw".to_string()),
        ]
    );
}

#[test]
fn successful_authentication_sets_the_token() {
    let mut client = Client::new("u".to_string(), "p".to_string(), Environment::Sandbox).unwrap();
    assert!(client.auth_data().about_to_expire_at(50));
    let outcome = client.finish_authentication_at(Ok(response("abc", 3600)), 50);
    assert_eq!(outcome, Ok(()));
    assert_eq!(client.auth_data().access_token(), "abc");
    assert_eq!(client.auth_data().token_type(), "Bearer");
    assert_eq!(client.auth_data().expires_at(), Some(3650));
    assert!(!client.auth_data().about_to_expire_at(50));
    assert_eq!(client.environment(), Environment::Sandbox);
    assert_eq!(client.default_headers().authorization, "Basic dTpw");
}

#[test]
fn failed_authentication_keeps_the_token() {
    let mut client = Client::new("u".to_string(), "p".to_string(), Environment::Sandbox).unwrap();
    client.finish_authentication_at(Ok(response("abc", 3600)), 50).unwrap();
    let before = client.auth_data().clone();
    let failure = PayPalError::Transport("connection refused".to_string());
    assert_eq!(client.finish_authentication_at(Err(failure.clone()), 60), Err(failure));
    assert_eq!(client.auth_data(), &before);
    let failure = PayPalError::Decoding("expected value".to_string());
    assert_eq!(client.finish_authentication(Err(failure.clone())), Err(failure));
    assert_eq!(client.auth_data(), &before);
    let outcome = client.finish_authentication_at(Ok(response("late", 2)), u64::MAX - 1);
    assert!(matches!(outcome, Err(PayPalError::LibraryError(_))));
    assert_eq!(client.auth_data(), &before);
}

#[test]
fn authentication_from_the_clock() {
    let mut client = Client::new("u".to_string(), "p".to_string(), Environment::Live).unwrap();
    assert_eq!(client.finish_authentication(Ok(response("abc", 3600))), Ok(()));
    assert_eq!(client.auth_data().access_token(), "abc");
    assert!(!client.auth_data().about_to_expire());
}
