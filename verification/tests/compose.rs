use std::collections::BTreeMap;
use std::str::FromStr;

use http_types::Url;
use paypal_rust::client::paypal::{Client, Environment, USER_AGENT};
use paypal_rust::client::query::{encode_query, QueryPairs, QueryParams};
use paypal_rust::client::app_info::AppInfo;
use paypal_rust::client::error::PayPalError;

fn sandbox() -> Client {
    Client::new("username".to_string(), "password".to_string(), Environment::Sandbox).unwrap()
}

#[test]
fn test_compose_url() {
    let client = Client::new(
        "username".to_string(),
        "password".to_string(),
        Environment::Sandbox,
    )
    .unwrap();
    let url = client.compose_url("test");
    assert_eq!(
        url,
        Url::from_str("https://api-m.sandbox.paypal.com/test").unwrap()
    );

    let client = Client::new(
        "username".to_string(),
        "password".to_string(),
        Environment::Live,
    )
    .unwrap();
    let url = client.compose_url("test");
    assert_eq!(url, Url::from_str("https://api-m.paypal.com/test").unwrap());
}

#[test]
fn test_compose_url_with_query() {
    let client = Client::new(
        "username".to_string(),
        "password".to_string(),
        Environment::Sandbox,
    )
    .unwrap();
    let query: QueryParams = QueryParams::new()
        .page(1)
        .page_size(10)
        .total_count_required(true);

    let url = client.compose_url_with_query("test", &query).unwrap();

    assert_eq!(
        url,
        Url::from_str("https://api-m.sandbox.paypal.com/test?page=1&page_size=10&total_count_required=true").unwrap()
    );
}

#[test]
fn compose_webhooks_path_in_both_environments() {
    let client = Client::new("u".to_string(), "p".to_string(), Environment::Sandbox).unwrap();
    assert_eq!(
        client.compose_url("v1/notifications/webhooks").as_str(),
        "https://api-m.sandbox.paypal.com/v1/notifications/webhooks"
    );
    let client = Client::new("u".to_string(), "p".to_string(), Environment::Live).unwrap();
    assert_eq!(
        client.compose_url("v1/notifications/webhooks").as_str(),
        "https://api-m.paypal.com/v1/notifications/webhooks"
    );
}

#[test]
fn compose_does_not_depend_on_credentials() {
    let a = Client::new("alice".to_string(), "one".to_string(), Environment::Live).unwrap();
    let b = Client::new("bob".to_string(), "two".to_string(), Environment::Live).unwrap();
    assert_eq!(a.compose_url("v1/x"), b.compose_url("v1/x"));
}

#[test]
fn compose_leaves_the_client_as_it_was() {
    let client = sandbox();
    let before = client.base_url().clone();
    let _ = client.compose_url("first");
    let _ = client.compose_url_with_query("second", &QueryParams::new().page(3)).unwrap();
    assert_eq!(client.base_url(), &before);
    assert_eq!(client.base_url().as_str(), "https://api-m.sandbox.paypal.com/");
    assert_eq!(client.compose_url("third").as_str(), "https://api-m.sandbox.paypal.com/third");
}

#[test]
fn compose_percent_encodes_the_path() {
    let client = sandbox();
    assert_eq!(
        client.compose_url("api/some comments").as_str(),
        "https://api-m.sandbox.paypal.com/api/some%20comments"
    );
}

#[test]
fn empty_query_gives_no_query_component() {
    let client = sandbox();
    let url = client.compose_url_with_query("test", &QueryParams::new()).unwrap();
    assert_eq!(url.as_str(), "https://api-m.sandbox.paypal.com/test");
    assert_eq!(url.query(), None);
    assert!(!url.as_str().contains('?'));
    let url = client.compose_url_with_pairs("test", &Vec::new()).unwrap();
    assert_eq!(url.query(), None);
}

#[test]
fn query_string_in_page_order() {
    let client = sandbox();
    let query = QueryParams::new().total_count_required(true).page_size(10).page(1);
    let url = client.compose_url_with_query("v1/notifications/webhooks", &query).unwrap();
    assert_eq!(
        url.as_str(),
        "https://api-m.sandbox.paypal.com/v1/notifications/webhooks?page=1&page_size=10&total_count_required=true"
    );
}

#[test]
fn query_string_reads_back_as_the_pairs() {
    let client = sandbox();
    let query = QueryParams::new().page(7).total_count_required(false);
    let url = client.compose_url_with_query("test", &query).unwrap();
    let text = url.query().unwrap();
    assert_eq!(text, "page=7&total_count_required=false");
    let read: BTreeMap<String, String> = serde_qs::from_str(text).unwrap();
    let written: BTreeMap<String, String> = query.to_pairs().into_iter().collect();
    assert_eq!(read, written);
    assert_eq!(read.len(), 2);
    assert_eq!(read["page"], "7");
    assert_eq!(read["total_count_required"], "false");
}

#[test]
fn query_pairs_are_percent_encoded_and_joined() {
    let pairs = vec![
        ("a b".to_string(), "1&2".to_string()),
        ("c".to_string(), "d=e".to_string()),
    ];
    let text = encode_query(&pairs).unwrap();
    assert_eq!(text, "a+b=1%262&c=d%3De");
    let read: BTreeMap<String, String> = serde_qs::from_str(&text).unwrap();
    assert_eq!(read["a b"], "1&2");
    assert_eq!(read["c"], "d=e");
    assert_eq!(encode_query(&Vec::new()).unwrap(), "");
    let client = sandbox();
    let url = client.compose_url_with_pairs("t", &pairs).unwrap();
    assert_eq!(url.as_str(), "https://api-m.sandbox.paypal.com/t?a+b=1%262&c=d%3De");
}

#[test]
fn query_params_pairs() {
    assert!(QueryParams::new().to_pairs().is_empty());
    assert!(QueryParams::default().to_pairs().is_empty());
    assert!(().to_pairs().is_empty());
    let pairs = QueryParams::new().page(0).page_size(4294967295).to_pairs();
    assert_eq!(
        pairs,
        vec![
            ("page".to_string(), "0".to_string()),
            ("page_size".to_string(), "4294967295".to_string()),
        ]
    );
    let pairs = QueryParams::new().total_count_required(false).to_pairs();
    assert_eq!(pairs, vec![("total_count_required".to_string(), "false".to_string())]);
}

#[test]
fn new_client_configuration() {
    let client = Client::new("u".to_string(), "p".to_string(), Environment::Live).unwrap();
    assert_eq!(client.environment(), Environment::Live);
    assert_eq!(client.user_agent(), USER_AGENT);
    assert_eq!(client.user_agent(), "PayPal/v2 Rust Bindings/0.1.0");
    assert_eq!(client.default_headers().authorization, "Basic dTpw");
    assert_eq!(client.default_headers().content_type, "application/json");
    assert_eq!(client.auth_data().access_token(), "");
    assert_eq!(client.auth_data().token_type(), "");
    assert_eq!(client.auth_data().expires_at(), None);
    assert!(client.auth_data().about_to_expire());
}

#[test]
fn app_info_extends_the_user_agent() {
    let info = AppInfo {
        name: "shop".to_string(),
        version: Some("1.2".to_string()),
        url: Some("https://shop.example".to_string()),
    };
    assert_eq!(info.to_string(), "shop/1.2 (https://shop.example)");
    let client = sandbox().with_app_info(&info);
    assert_eq!(
        client.user_agent(),
        "PayPal/v2 Rust Bindings/0.1.0 shop/1.2 (https://shop.example)"
    );
    assert_eq!(client.environment(), Environment::Sandbox);
    assert_eq!(client.compose_url("test").as_str(), "https://api-m.sandbox.paypal.com/test");
    let bare = AppInfo { name: "shop".to_string(), version: None, url: None };
    assert_eq!(bare.to_string(), "shop");
    let versioned = AppInfo { name: "shop".to_string(), version: Some("2".to_string()), url: None };
    assert_eq!(versioned.to_string(), "shop/2");
    let linked = AppInfo { name: "shop".to_string(), version: None, url: Some("u".to_string()) };
    assert_eq!(linked.to_string(), "shop (u)");
}

#[test]
fn error_text() {
    assert_eq!(PayPalError::LibraryError("bad".to_string()).to_string(), "bad");
    assert_eq!(PayPalError::Transport("down".to_string()).to_string(), "down");
    assert_eq!(PayPalError::Decoding("eof".to_string()).to_string(), "eof");
}
