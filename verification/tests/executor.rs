use paypal_rust::client::auth::{AuthData, AuthResponse, AuthStrategy};
use paypal_rust::client::error::{PayPalError, ValidationError};
use paypal_rust::client::executor::{
    authorize, bearer, handshake_outcome, is_success, on_response, ExecuteAction, ExecuteEvent,
    ExecuteState,
};
use paypal_rust::client::paypal::{Client, Environment};
use paypal_rust::client::request::{Method, PreparedRequest};

fn request() -> PreparedRequest {
    let client = Client::new("u".to_string(), "p".to_string(), Environment::Sandbox).unwrap();
    PreparedRequest::new(Method::Get, client.compose_url("v1/notifications/webhooks"))
        .header("Authorization", "Basic dTpw")
        .header("Content-Type", "application/json")
}

fn token(lifetime: u64, now: u64) -> AuthData {
    let mut auth = AuthData::new();
    auth.update_at(
        AuthResponse {
            access_token: "tok".to_string(),
            token_type: "Bearer".to_string(),
            expires_in: lifetime,
        },
        now,
    );
    auth
}

fn sent_headers() -> Vec<(String, String)> {
    vec![
        ("Content-Type".to_string(), "application/json".to_string()),
        ("Authorization".to_string(), "Bearer tok".to_string()),
    ]
}

#[test]
fn bearer_value() {
    assert_eq!(bearer("tok"), "Bearer tok");
    assert_eq!(bearer(""), "Bearer ");
}

#[test]
fn success_statuses() {
    assert!(!is_success(199));
    assert!(is_success(200));
    assert!(is_success(204));
    assert!(is_success(299));
    assert!(!is_success(300));
    assert!(!is_success(404));
    assert!(!is_success(500));
    assert!(!is_success(0));
}

#[test]
fn authorize_overrides_the_authorization_header() {
    let sent = authorize(request(), &token(3600, 0));
    assert_eq!(sent.headers, sent_headers());
    assert_eq!(sent.method, Method::Get);
    assert_eq!(sent.body, None);
    let twice = authorize(sent, &token(3600, 0));
    assert_eq!(twice.headers, sent_headers());
}

#[test]
fn call_with_a_fresh_token_sends_at_once() {
    let auth = token(3600, 100);
    let state = ExecuteState::new(request());
    let start = ExecuteEvent::Start { strategy: AuthStrategy::TokenRefresh, now: 100 };
    let (state, action) = state.step(start, &auth);
    assert!(matches!(state, ExecuteState::AwaitingResponse));
    match action {
        ExecuteAction::Send(sent) => {
            assert_eq!(sent.headers, sent_headers());
            assert_eq!(sent.url.as_str(), "https://api-m.sandbox.paypal.com/v1/notifications/webhooks");
        }
        other => panic!("unexpected action {:?}", other),
    }
    let (state, action) = state.step(ExecuteEvent::Responded { status: 200 }, &auth);
    assert!(matches!(state, ExecuteState::Finished));
    assert!(matches!(action, ExecuteAction::ReadBody));
}

#[test]
fn call_with_an_expiring_token_refreshes_first() {
    let stale = AuthData::new();
    let state = ExecuteState::new(request());
    let start = ExecuteEvent::Start { strategy: AuthStrategy::TokenRefresh, now: 100 };
    let (state, action) = state.step(start, &stale);
    assert!(matches!(state, ExecuteState::Refreshing(_)));
    assert!(matches!(action, ExecuteAction::Authenticate));
    let fresh = token(3600, 100);
    let (state, action) = state.step(ExecuteEvent::Refreshed(Ok(())), &fresh);
    assert!(matches!(state, ExecuteState::AwaitingResponse));
    match action {
        ExecuteAction::Send(sent) => assert_eq!(sent.headers, sent_headers()),
        other => panic!("unexpected action {:?}", other),
    }
    let (state, action) = state.step(ExecuteEvent::Responded { status: 404 }, &fresh);
    assert!(matches!(state, ExecuteState::Finished));
    assert!(matches!(action, ExecuteAction::ReadError));
}

#[test]
fn call_without_refresh_strategy_sends_with_what_is_there() {
    let stale = AuthData::new();
    let state = ExecuteState::new(request());
    let start = ExecuteEvent::Start { strategy: AuthStrategy::NoTokenRefresh, now: 100 };
    let (state, action) = state.step(start, &stale);
    assert!(matches!(state, ExecuteState::AwaitingResponse));
    match action {
        ExecuteAction::Send(sent) => assert_eq!(
            sent.headers,
            vec![
                ("Content-Type".to_string(), "application/json".to_string()),
                ("Authorization".to_string(), "Bearer ".to_string()),
            ]
        ),
        other => panic!("unexpected action {:?}", other),
    }
}

#[test]
fn failed_refresh_ends_the_call() {
    let stale = AuthData::new();
    let state = ExecuteState::new(request());
    let start = ExecuteEvent::Start { strategy: AuthStrategy::TokenRefresh, now: 100 };
    let (state, _) = state.step(start, &stale);
    let failure = PayPalError::Transport("down".to_string());
    let (state, action) = state.step(ExecuteEvent::Refreshed(Err(failure.clone())), &stale);
    assert!(matches!(state, ExecuteState::Finished));
    match action {
        ExecuteAction::Fail(error) => assert_eq!(error, failure),
        other => panic!("unexpected action {:?}", other),
    }
}

#[test]
fn failed_transport_ends_the_call() {
    let auth = token(3600, 100);
    let start = ExecuteEvent::Start { strategy: AuthStrategy::TokenRefresh, now: 100 };
    let (state, _) = ExecuteState::new(request()).step(start, &auth);
    let failure = PayPalError::Transport("reset".to_string());
    let (state, action) = state.step(ExecuteEvent::SendFailed(failure.clone()), &auth);
    assert!(matches!(state, ExecuteState::Finished));
    match action {
        ExecuteAction::Fail(error) => assert_eq!(error, failure),
        other => panic!("unexpected action {:?}", other),
    }
}

#[test]
fn events_out_of_turn_end_the_call() {
    let auth = token(3600, 100);
    let (state, action) =
        ExecuteState::new(request()).step(ExecuteEvent::Responded { status: 200 }, &auth);
    assert!(matches!(state, ExecuteState::Finished));
    assert!(matches!(action, ExecuteAction::Fail(PayPalError::LibraryError(_))));
    let start = ExecuteEvent::Start { strategy: AuthStrategy::TokenRefresh, now: 100 };
    let (state, action) = state.step(start, &auth);
    assert!(matches!(state, ExecuteState::Finished));
    assert!(matches!(action, ExecuteAction::Fail(PayPalError::LibraryError(_))));
    let start = ExecuteEvent::Start { strategy: AuthStrategy::TokenRefresh, now: 100 };
    let (state, _) = ExecuteState::new(request()).step(start, &auth);
    let again = ExecuteEvent::Start { strategy: AuthStrategy::TokenRefresh, now: 100 };
    let (state, action) = state.step(again, &auth);
    assert!(matches!(state, ExecuteState::Finished));
    assert!(matches!(action, ExecuteAction::Fail(PayPalError::LibraryError(_))));
}

#[test]
fn one_request_per_call() {
    let stale = AuthData::new();
    let fresh = token(3600, 100);
    let mut sends = 0;
    let mut state = ExecuteState::new(request());
    let events = vec![
        ExecuteEvent::Start { strategy: AuthStrategy::TokenRefresh, now: 100 },
        ExecuteEvent::Refreshed(Ok(())),
        ExecuteEvent::Refreshed(Ok(())),
        ExecuteEvent::Start { strategy: AuthStrategy::NoTokenRefresh, now: 100 },
        ExecuteEvent::Responded { status: 200 },
    ];
    let mut first = true;
    for event in events {
        let auth = if first { &stale } else { &fresh };
        first = false;
        let (next, action) = state.step(event, auth);
        if matches!(action, ExecuteAction::Send(_)) {
            sends += 1;
        }
        state = next;
    }
    assert_eq!(sends, 1);
    assert!(matches!(state, ExecuteState::Finished));
}

#[test]
fn how_a_response_is_read() {
    assert!(matches!(on_response(200), ExecuteAction::ReadBody));
    assert!(matches!(on_response(201), ExecuteAction::ReadBody));
    assert!(matches!(on_response(299), ExecuteAction::ReadBody));
    assert!(matches!(on_response(199), ExecuteAction::ReadError));
    assert!(matches!(on_response(300), ExecuteAction::ReadError));
    assert!(matches!(on_response(401), ExecuteAction::ReadError));
    assert!(matches!(on_response(503), ExecuteAction::ReadError));
}

#[test]
fn handshake_outcomes() {
    let token = || AuthResponse {
        access_token: "tok".to_string(),
        token_type: "Bearer".to_string(),
        expires_in: 60,
    };
    let envelope = || ValidationError {
        name: "invalid_client".to_string(),
        message: "Client Authentication failed".to_string(),
        details: None,
        debug_id: None,
    };
    let unreadable = || PayPalError::Decoding("missing field".to_string());
    assert_eq!(handshake_outcome(200, Ok(token()), Err(unreadable())), Ok(token()));
    assert_eq!(handshake_outcome(200, Ok(token()), Ok(envelope())), Ok(token()));
    assert_eq!(handshake_outcome(200, Err(unreadable()), Ok(envelope())), Err(unreadable()));
    assert_eq!(
        handshake_outcome(401, Err(unreadable()), Ok(envelope())),
        Err(PayPalError::Api(envelope()))
    );
    assert_eq!(
        handshake_outcome(401, Ok(token()), Ok(envelope())),
        Err(PayPalError::Api(envelope()))
    );
    assert_eq!(handshake_outcome(503, Ok(token()), Err(unreadable())), Err(unreadable()));
    assert_eq!(handshake_outcome(199, Ok(token()), Err(unreadable())), Err(unreadable()));
    assert_eq!(handshake_outcome(299, Ok(token()), Err(unreadable())), Ok(token()));
    assert_eq!(handshake_outcome(300, Ok(token()), Err(unreadable())), Err(unreadable()));
}
