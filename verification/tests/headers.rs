use paypal_rust::client::headers::{push_header, set_header};
use paypal_rust::client::paypal::{Client, Environment};
use paypal_rust::client::request::{
    HttpRequestHeaders, Method, PreparedRequest, RequestUrl, AUTHORIZATION, CONTENT_TYPE,
    USER_AGENT_HEADER,
};
use paypal_rust::client::text::{bool_string, decimal_string, same_header_name};
use paypal_rust::client::endpoint::Endpoint;
use paypal_rust::resources::webhooks::{ListWebhooks, ListWebhooksQuery, ShowWebhookDetails};
use paypal_rust::resources::enums::anchor_type::AnchorType;

fn pair(name: &str, value: &str) -> (String, String) {
    (name.to_string(), value.to_string())
}

fn client() -> Client {
    Client::new("u".to_string(), "p".to_string(), Environment::Sandbox).unwrap()
}

#[test]
fn decimal_numerals() {
    assert_eq!(decimal_string(0), "0");
    assert_eq!(decimal_string(7), "7");
    assert_eq!(decimal_string(10), "10");
    assert_eq!(decimal_string(1234567890), "1234567890");
    assert_eq!(decimal_string(u32::MAX), "4294967295");
    assert_eq!(bool_string(true), "true");
    assert_eq!(bool_string(false), "false");
}

#[test]
fn header_names_ignore_ascii_case() {
    assert!(same_header_name("Authorization", "authorization"));
    assert!(same_header_name("AUTHORIZATION", "Authorization"));
    assert!(same_header_name("", ""));
    assert!(!same_header_name("Authorization", "Authorizatio"));
    assert!(!same_header_name("Content-Type", "Content_Type"));
    assert!(!same_header_name("É", "é"));
    assert!(same_header_name("x-é", "X-é"));
    assert!(!same_header_name("@", "`"));
    assert!(!same_header_name("[", "{"));
}

#[test]
fn set_header_drops_former_entries() {
    let headers = vec![
        pair("authorization", "Basic x"),
        pair("Content-Type", "application/json"),
        pair("Authorization", "Basic y"),
        pair("Accept", "*/*"),
    ];
    let out = set_header(&headers, "Authorization", "Bearer t");
    assert_eq!(
        out,
        vec![
            pair("Content-Type", "application/json"),
            pair("Accept", "*/*"),
            pair("Authorization", "Bearer t"),
        ]
    );
    let out = set_header(&Vec::new(), "A", "1");
    assert_eq!(out, vec![pair("A", "1")]);
    let mut list = vec![pair("A", "1")];
    push_header(&mut list, "a", "2");
    assert_eq!(list, vec![pair("A", "1"), pair("a", "2")]);
}

#[test]
fn declared_headers() {
    let headers = HttpRequestHeaders::new("Basic dTpw".to_string());
    assert_eq!(
        headers.to_vec(),
        vec![pair("Authorization", "Basic dTpw"), pair("Content-Type", "application/json")]
    );
    let headers = HttpRequestHeaders::default();
    assert_eq!(
        headers.to_vec(),
        vec![pair("Authorization", ""), pair("Content-Type", "application/json")]
    );
    assert_eq!(AUTHORIZATION, "Authorization");
    assert_eq!(CONTENT_TYPE, "Content-Type");
    assert_eq!(USER_AGENT_HEADER, "User-Agent");
}

#[test]
fn request_builder() {
    let c = client();
    let request = PreparedRequest::new(Method::Post, c.compose_url("x"));
    assert!(request.headers.is_empty());
    assert_eq!(request.body, None);
    let request = request.header("A", "1").header("A", "2").body("{}".to_string());
    assert_eq!(request.headers, vec![pair("A", "1"), pair("A", "2")]);
    assert_eq!(request.body, Some("{}".to_string()));
    let request = request.set_header("a", "3");
    assert_eq!(request.headers, vec![pair("a", "3")]);
    assert_eq!(request.method, Method::Post);
    assert_eq!(request.url.as_str(), "https://api-m.sandbox.paypal.com/x");
    let request = c.set_request_headers(request, &HttpRequestHeaders::new("Basic z".to_string()));
    assert_eq!(
        request.headers,
        vec![pair("a", "3"), pair("Authorization", "Basic z"), pair("Content-Type", "application/json")]
    );
}

#[test]
fn verbs_and_hosts() {
    assert_eq!(Method::Get.as_str(), "GET");
    assert_eq!(Method::Post.as_str(), "POST");
    assert_eq!(Method::Patch.as_str(), "PATCH");
    assert_eq!(Method::Delete.as_str(), "DELETE");
    assert_eq!(RequestUrl::Sandbox.as_str(), "https://api-m.sandbox.paypal.com");
    assert_eq!(RequestUrl::Live.as_str(), "https://api-m.paypal.com");
    assert_eq!(RequestUrl::Live.as_url().unwrap().as_str(), "https://api-m.paypal.com/");
    assert_eq!(Environment::Sandbox.request_url(), RequestUrl::Sandbox);
    assert_eq!(Environment::Live.request_url(), RequestUrl::Live);
    assert_eq!(Environment::Live.to_string(), "live");
}

#[test]
fn build_request_from_parts() {
    let c = client();
    let pairs = vec![pair("page", "2")];
    let headers = HttpRequestHeaders::default();
    let request = c
        .build_request(Method::Patch, "v1/things", &pairs, &headers, Some("[]".to_string()))
        .unwrap();
    assert_eq!(request.method, Method::Patch);
    assert_eq!(request.url.as_str(), "https://api-m.sandbox.paypal.com/v1/things?page=2");
    assert_eq!(request.body, Some("[]".to_string()));
    assert_eq!(
        request.headers,
        vec![
            pair("Authorization", ""),
            pair("Content-Type", "application/json"),
            pair("User-Agent", "PayPal/v2 Rust Bindings/0.1.0"),
        ]
    );
    let request = c.build_request(Method::Get, "v1/things", &Vec::new(), &headers, None).unwrap();
    assert_eq!(request.url.as_str(), "https://api-m.sandbox.paypal.com/v1/things");
    assert_eq!(request.body, None);
}

#[test]
fn prepare_from_descriptors() {
    let c = client();
    let list = ListWebhooks::new(ListWebhooksQuery::new(Some(AnchorType::Account)));
    let request = c.prepare(Method::Get, &list, None).unwrap();
    assert_eq!(
        request.url.as_str(),
        "https://api-m.sandbox.paypal.com/v1/notifications/webhooks?anchor_type=ACCOUNT"
    );
    assert_eq!(request.method, Method::Get);
    assert_eq!(request.body, None);
    assert_eq!(request.headers.last().unwrap(), &pair("User-Agent", "PayPal/v2 Rust Bindings/0.1.0"));
    let list = ListWebhooks::new(ListWebhooksQuery::new(None));
    let request = c.prepare(list.request_method(), &list, None).unwrap();
    assert_eq!(request.url.as_str(), "https://api-m.sandbox.paypal.com/v1/notifications/webhooks");
    let show = ShowWebhookDetails::new("W 1".to_string());
    let request = c.prepare(Method::Get, &show, None).unwrap();
    assert_eq!(
        request.url.as_str(),
        "https://api-m.sandbox.paypal.com/v1/notifications/webhooks/W%201"
    );
}

#[test]
fn prepare_with_a_json_body() {
    let c = client();
    let show = ShowWebhookDetails::new("W-1".to_string());
    let mut item = serde_json::Map::new();
    item.insert("op".to_string(), serde_json::Value::from("replace"));
    item.insert("path".to_string(), serde_json::Value::from("/url"));
    let body = serde_json::Value::Array(vec![serde_json::Value::Object(item)]);
    let request = c.prepare_json(Method::Patch, &show, &body).unwrap();
    assert_eq!(request.method, Method::Patch);
    assert_eq!(request.body, Some("[{\"op\":\"replace\",\"path\":\"/url\"}]".to_string()));
    assert_eq!(
        request.url.as_str(),
        "https://api-m.sandbox.paypal.com/v1/notifications/webhooks/W-1"
    );
    let mut ordered = serde_json::Map::new();
    ordered.insert("webhook_id".to_string(), serde_json::Value::from("W-1"));
    ordered.insert("event_type".to_string(), serde_json::Value::from("X"));
    let body = serde_json::Value::Object(ordered);
    let request = c.prepare_json(Method::Post, &show, &body).unwrap();
    assert_eq!(
        request.body,
        Some("{\"webhook_id\":\"W-1\",\"event_type\":\"X\"}".to_string())
    );
    let request = c.prepare_json(Method::Post, &show, &serde_json::Value::Null).unwrap();
    assert_eq!(request.body, Some("null".to_string()));
    let request = c.prepare_json(Method::Post, &show, &serde_json::Value::from("")).unwrap();
    assert_eq!(request.body, Some("\"\"".to_string()));
}

#[test]
fn verb_requests() {
    let c = client();
    let show = ShowWebhookDetails::new("W-1".to_string());
    let request = c.get(&show).unwrap();
    assert_eq!(request.method, Method::Get);
    assert_eq!(request.body, None);
    assert_eq!(
        request.url.as_str(),
        "https://api-m.sandbox.paypal.com/v1/notifications/webhooks/W-1"
    );
    assert_eq!(
        request.headers,
        vec![
            pair("Authorization", ""),
            pair("Content-Type", "application/json"),
            pair("User-Agent", "PayPal/v2 Rust Bindings/0.1.0"),
        ]
    );
    let request = c.delete(&show).unwrap();
    assert_eq!(request.method, Method::Delete);
    assert_eq!(request.body, None);
    let body = serde_json::Value::from(vec![1u8, 2]);
    let request = c.post(&show, &body).unwrap();
    assert_eq!(request.method, Method::Post);
    assert_eq!(request.body, Some("[1,2]".to_string()));
    let request = c.patch(&show, &body).unwrap();
    assert_eq!(request.method, Method::Patch);
    assert_eq!(request.body, Some("[1,2]".to_string()));
    assert!(c.path_fits("v1/notifications/webhooks/W-1"));
    assert!(c.path_fits(&"x".repeat(100_000)));
}
