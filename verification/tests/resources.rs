use paypal_rust::client::auth::AuthStrategy;
use paypal_rust::client::endpoint::Endpoint;
use paypal_rust::client::paypal::Environment;
use paypal_rust::client::query::QueryPairs;
use paypal_rust::client::request::{Method, RequestStrategy};
use paypal_rust::client::EmptyResponseBody;
use paypal_rust::resources::create_webhook_event_type::CreateWebhookEventType;
use paypal_rust::resources::enums::anchor_type::AnchorType;
use paypal_rust::resources::enums::op::Op;
use paypal_rust::resources::enums::verification_status::VerificationStatus;
use paypal_rust::resources::show_webhook_event_type::ShowWebhookEventType;
use paypal_rust::resources::webhooks::{
    CreateWebhook, CreateWebhookDto, DeleteWebhook, ListAvailableWebhookEvents, ListWebhooks,
    ListWebhooksQuery, ShowWebhookDetails, SimulateWebhookEvent, SimulateWebhookEventDto,
    UpdateWebhook, UpdateWebhookDtoItem, VerifyWebhookSignature, VerifyWebhookSignatureDto,
};

#[test]
fn anchor_types() {
    assert_eq!(AnchorType::Application.as_str(), "APPLICATION");
    assert_eq!(AnchorType::Account.as_str(), "ACCOUNT");
    assert_eq!(AnchorType::default(), AnchorType::Application);
    assert_eq!(AnchorType::Account.to_string(), "ACCOUNT");
}

#[test]
fn patch_operations_and_statuses() {
    assert_eq!(Op::Add.as_str(), "add");
    assert_eq!(Op::Remove.as_str(), "remove");
    assert_eq!(Op::Replace.as_str(), "replace");
    assert_eq!(Op::Move.as_str(), "move");
    assert_eq!(Op::Copy.as_str(), "copy");
    assert_eq!(Op::Test.as_str(), "test");
    assert_eq!(VerificationStatus::Success.as_str(), "SUCCESS");
    assert_eq!(VerificationStatus::Failure.as_str(), "FAILURE");
}

#[test]
fn event_type_defaults() {
    assert_eq!(CreateWebhookEventType::default().name, "");
    let shown = ShowWebhookEventType::default();
    assert_eq!(shown.name, "");
    assert_eq!(shown.description, None);
    assert_eq!(shown.status, None);
    assert_eq!(shown.resource_versions, None);
}

#[test]
fn list_webhooks_descriptor() {
    let endpoint = ListWebhooks::new(ListWebhooksQuery::new(Some(AnchorType::Application)));
    assert_eq!(endpoint.path(), "v1/notifications/webhooks");
    assert_eq!(endpoint.request_method(), Method::Get);
    assert_eq!(endpoint.auth_strategy(), AuthStrategy::TokenRefresh);
    assert_eq!(endpoint.request_strategy(), RequestStrategy::Once);
    assert!(endpoint.request_body().is_none());
    assert_eq!(
        endpoint.query().unwrap().to_pairs(),
        vec![("anchor_type".to_string(), "APPLICATION".to_string())]
    );
    assert_eq!(endpoint.headers().content_type, "application/json");
    assert_eq!(endpoint.headers().authorization, "");
    assert!(ListWebhooksQuery::new(None).to_pairs().is_empty());
}

#[test]
fn webhook_descriptors_by_id() {
    let show = ShowWebhookDetails::new("W-1".to_string());
    assert_eq!(show.path(), "v1/notifications/webhooks/W-1");
    assert_eq!(show.request_method(), Method::Get);
    assert!(show.query().is_none());
    let delete = DeleteWebhook::new("W-2".to_string());
    assert_eq!(delete.path(), "v1/notifications/webhooks/W-2");
    assert_eq!(delete.request_method(), Method::Delete);
    assert!(delete.request_body().is_none());
    let item = UpdateWebhookDtoItem {
        op: Op::Replace,
        path: "/url".to_string(),
        value: Some("https://example.com/hook".to_string()),
        from: None,
    };
    let update = UpdateWebhook::new("W-3".to_string(), vec![item]);
    assert_eq!(update.path(), "v1/notifications/webhooks/W-3");
    assert_eq!(update.request_method(), Method::Patch);
    let body = update.request_body().unwrap();
    assert_eq!(body.len(), 1);
    assert_eq!(body[0].op, Op::Replace);
    assert_eq!(body[0].path, "/url");
    assert_eq!(EmptyResponseBody {}, EmptyResponseBody {});
}

#[test]
fn webhook_descriptors_with_bodies() {
    let create = CreateWebhook::new(CreateWebhookDto {
        event_type: vec![CreateWebhookEventType { name: "*".to_string() }],
    });
    assert_eq!(create.path(), "v1/notifications/webhooks");
    assert_eq!(create.request_method(), Method::Post);
    assert_eq!(create.request_body().unwrap().event_type[0].name, "*");
    let simulate = SimulateWebhookEvent::new(SimulateWebhookEventDto {
        webhook_id: Some("W-1".to_string()),
        url: None,
        event_type: "PAYMENT.SALE.COMPLETED".to_string(),
        resource_version: None,
    });
    assert_eq!(simulate.path(), "v1/notifications/webhooks-events");
    assert_eq!(simulate.request_method(), Method::Post);
    assert_eq!(simulate.request_body().unwrap().event_type, "PAYMENT.SALE.COMPLETED");
    let verify = VerifyWebhookSignature::new(VerifyWebhookSignatureDto {
        auth_algo: "SHA256withRSA".to_string(),
        cert_url: "https://cert".to_string(),
        transmission_id: "id".to_string(),
        transmission_sig: "sig".to_string(),
        transmission_time: "2024-01-01T00:00:00Z".to_string(),
        webhook_event: serde_json::Value::Null,
        webhook_id: "W-1".to_string(),
    });
    assert_eq!(verify.path(), "v1/notifications/verify-webhook-signature");
    assert_eq!(verify.request_method(), Method::Post);
    assert_eq!(verify.request_body().unwrap().webhook_id, "W-1");
    let available = ListAvailableWebhookEvents::new();
    assert_eq!(available.path(), "v1/notifications/webhooks-event-types");
    assert_eq!(available.request_method(), Method::Get);
}

#[test]
fn names_by_reference() {
    let anchor: &str = AnchorType::Account.as_ref();
    assert_eq!(anchor, "ACCOUNT");
    let environment: &str = Environment::Sandbox.as_ref();
    assert_eq!(environment, "sandbox");
    let environment: &str = Environment::Live.as_ref();
    assert_eq!(environment, "live");
}
