//! Webhooks: the data that is exchanged and the descriptors of the
//! operations.

use vstd::prelude::*;
use crate::client::endpoint::{EmptyResponseBody, Endpoint, Overrides};
use crate::client::encoding::all_plain;
use crate::client::query::{optional_pair, QueryPairs};
use crate::client::request::{HttpRequestHeaders, Method, JSON_MEDIA_TYPE};
use crate::resources::create_webhook_event_type::CreateWebhookEventType;
use crate::resources::enums::anchor_type::AnchorType;
use crate::resources::enums::op::Op;
use crate::resources::enums::verification_status::VerificationStatus;
use crate::resources::link_description::LinkDescription;
use crate::resources::show_webhook_event_type::ShowWebhookEventType;

verus! {

/// The path under which webhooks are listed and created.
pub const WEBHOOKS_PATH: &'static str = "v1/notifications/webhooks";

/// The path below which a single webhook lives, by its ID.
pub const WEBHOOK_PATH_PREFIX: &'static str = "v1/notifications/webhooks/";

/// The path of the signature verification.
pub const VERIFY_SIGNATURE_PATH: &'static str = "v1/notifications/verify-webhook-signature";

/// The path of the event simulation.
pub const SIMULATE_EVENT_PATH: &'static str = "v1/notifications/webhooks-events";

/// The path under which the available event types are listed.
pub const EVENT_TYPES_PATH: &'static str = "v1/notifications/webhooks-event-types";

/// The path of the webhook with an ID.
pub open spec fn webhook_path(id: Seq<char>) -> Seq<char> {
    WEBHOOK_PATH_PREFIX@ + id
}

/// Writes the path of the webhook with an ID.
pub fn webhook_path_of(id: &str) -> (r: String)
    ensures
        r@ == webhook_path(id@),
{
    let mut out = WEBHOOK_PATH_PREFIX.to_owned();
    out.append(id);
    out
}

/// A webhook as the provider lists it.
#[derive(Clone, Debug)]
pub struct Webhook {
    /// The ID of the webhook.
    pub id: String,
    /// The URL that listens for incoming notification messages.
    pub url: String,
    /// The events to which the webhook is subscribed.
    pub event_types: Vec<ShowWebhookEventType>,
    /// Request-related HATEOAS links.
    pub links: Option<Vec<LinkDescription>>,
}

/// What is needed to verify the signature of a notification.
#[derive(Debug)]
pub struct VerifyWebhookSignatureDto {
    /// The algorithm that generated the signature.
    pub auth_algo: String,
    /// The URL of the X.509 public key certificate.
    pub cert_url: String,
    /// The ID of the HTTP transmission.
    pub transmission_id: String,
    /// The signature.
    pub transmission_sig: String,
    /// The date and time of the HTTP transmission.
    pub transmission_time: String,
    /// The notification itself: the body of the request that carried it.
    pub webhook_event: serde_json::Value,
    /// The ID of the webhook as configured in the developer portal.
    pub webhook_id: String,
}

impl Clone for VerifyWebhookSignatureDto {
    /// A copy that holds the same in every field.
    fn clone(&self) -> (r: VerifyWebhookSignatureDto)
        ensures
            r == *self,
    {
        VerifyWebhookSignatureDto {
            auth_algo: self.auth_algo.clone(),
            cert_url: self.cert_url.clone(),
            transmission_id: self.transmission_id.clone(),
            transmission_sig: self.transmission_sig.clone(),
            transmission_time: self.transmission_time.clone(),
            webhook_event: self.webhook_event.clone(),
            webhook_id: self.webhook_id.clone(),
        }
    }
}

/// The answer to a signature verification.
#[derive(Clone, Debug)]
pub struct VerifyWebhookSignatureResponse {
    /// The status of the signature verification.
    pub verification_status: VerificationStatus,
}

/// Verifies the signature of a notification.
#[derive(Debug)]
pub struct VerifyWebhookSignature {
    pub body: VerifyWebhookSignatureDto,
}

impl VerifyWebhookSignature {
    pub fn new(body: VerifyWebhookSignatureDto) -> (r: VerifyWebhookSignature)
        ensures
            r.body == body,
    {
        VerifyWebhookSignature { body }
    }
}

impl Endpoint for VerifyWebhookSignature {
    type QueryParams = ();

    type RequestBody = VerifyWebhookSignatureDto;

    type ResponseBody = VerifyWebhookSignatureResponse;

    open spec fn overrides(&self) -> Overrides {
        Overrides { request_body: true, request_method: true, ..Overrides::none() }
    }

    fn path(&self) -> (r: String)
        ensures
            r@ == VERIFY_SIGNATURE_PATH@,
    {
        VERIFY_SIGNATURE_PATH.to_owned()
    }

    fn query(&self) -> (r: Option<()>)
        ensures
            r is None,
    {
        None
    }

    fn headers(&self) -> (r: HttpRequestHeaders)
        ensures
            r.authorization@ == Seq::<char>::empty(),
            r.content_type@ == JSON_MEDIA_TYPE@,
    {
        HttpRequestHeaders::default()
    }

    fn request_body(&self) -> (r: Option<VerifyWebhookSignatureDto>)
        ensures
            r == Some(self.body),
    {
        Some(self.body.clone())
    }

    fn request_method(&self) -> (r: Method)
        ensures
            r == Method::Post,
    {
        Method::Post
    }
}

/// The filter of a webhook list.
#[derive(Clone, Debug)]
pub struct ListWebhooksQuery {
    /// The entity type to which the listed webhooks are anchored.
    pub anchor_type: Option<AnchorType>,
}

impl ListWebhooksQuery {
    pub fn new(anchor_type: Option<AnchorType>) -> (r: ListWebhooksQuery)
        ensures
            r.anchor_type == anchor_type,
    {
        ListWebhooksQuery { anchor_type }
    }
}

/// The anchor type, where one is set, under the key `anchor_type`.
impl QueryPairs for ListWebhooksQuery {
    open spec fn pairs(&self) -> Seq<(Seq<char>, Seq<char>)> {
        optional_pair(
            "anchor_type"@,
            match self.anchor_type {
                Some(anchor) => Some(anchor.name()),
                None => None,
            },
        )
    }

    fn to_pairs(&self) -> (r: Vec<(String, String)>) {
        let mut out: Vec<(String, String)> = Vec::new();
        assert(out.deep_view() =~= Seq::empty());
        if let Some(anchor) = self.anchor_type {
            out.push(("anchor_type".to_owned(), anchor.as_str().to_owned()));
            assert(out.deep_view() =~= seq![("anchor_type"@, anchor.name())]);
        }
        out
    }
}

/// The pair of a webhook filter is plain: a key of small letters and an
/// underscore, a value of capital letters. So its query string is always
/// written, as the pair itself.
pub proof fn lemma_anchor_pairs_plain(query: ListWebhooksQuery)
    ensures
        all_plain(query.pairs()),
{
    reveal_strlit("anchor_type");
    reveal_strlit("APPLICATION");
    reveal_strlit("ACCOUNT");
}

/// The answer to a webhook list.
#[derive(Clone, Debug)]
pub struct ListWebhooksResponse {
    /// The webhooks.
    pub webhooks: Vec<Webhook>,
    /// Request-related HATEOAS links.
    pub links: Option<Vec<LinkDescription>>,
}

/// Lists the webhooks of an application or account.
#[derive(Debug)]
pub struct ListWebhooks {
    pub query_params: ListWebhooksQuery,
}

impl ListWebhooks {
    pub fn new(query_params: ListWebhooksQuery) -> (r: ListWebhooks)
        ensures
            r.query_params == query_params,
    {
        ListWebhooks { query_params }
    }
}

impl Endpoint for ListWebhooks {
    type QueryParams = ListWebhooksQuery;

    type RequestBody = ();

    type ResponseBody = ListWebhooksResponse;

    open spec fn overrides(&self) -> Overrides {
        Overrides { query: true, ..Overrides::none() }
    }

    fn path(&self) -> (r: String)
        ensures
            r@ == WEBHOOKS_PATH@,
    {
        WEBHOOKS_PATH.to_owned()
    }

    fn headers(&self) -> (r: HttpRequestHeaders)
        ensures
            r.authorization@ == Seq::<char>::empty(),
            r.content_type@ == JSON_MEDIA_TYPE@,
    {
        HttpRequestHeaders::default()
    }

    fn query(&self) -> (r: Option<ListWebhooksQuery>)
        ensures
            r == Some(self.query_params),
    {
        Some(ListWebhooksQuery { anchor_type: self.query_params.anchor_type })
    }
}

/// The details of a webhook.
#[derive(Clone, Debug)]
pub struct ShowWebhookDetailsResponse {
    /// The ID of the webhook.
    pub id: Option<String>,
    /// The URL that listens for incoming notification messages.
    pub url: String,
    /// The events to which the webhook is subscribed.
    pub event_types: Vec<ShowWebhookEventType>,
    /// Request-related HATEOAS links.
    pub links: Option<Vec<LinkDescription>>,
}

/// Shows the details of a webhook, by its ID.
#[derive(Debug)]
pub struct ShowWebhookDetails {
    pub id: String,
}

impl ShowWebhookDetails {
    pub fn new(id: String) -> (r: ShowWebhookDetails)
        ensures
            r.id == id,
    {
        ShowWebhookDetails { id }
    }
}

impl Endpoint for ShowWebhookDetails {
    type QueryParams = ();

    type RequestBody = ();

    type ResponseBody = ShowWebhookDetailsResponse;

    fn path(&self) -> (r: String)
        ensures
            r@ == webhook_path(self.id@),
    {
        webhook_path_of(self.id.as_str())
    }

    fn query(&self) -> (r: Option<()>)
        ensures
            r is None,
    {
        None
    }

    fn headers(&self) -> (r: HttpRequestHeaders)
        ensures
            r.authorization@ == Seq::<char>::empty(),
            r.content_type@ == JSON_MEDIA_TYPE@,
    {
        HttpRequestHeaders::default()
    }
}

/// What is needed to create a webhook.
#[derive(Debug)]
pub struct CreateWebhookDto {
    /// The events to subscribe the webhook to.
    pub event_type: Vec<CreateWebhookEventType>,
}

impl Clone for CreateWebhookDto {
    /// A copy that names the same events in the same order.
    fn clone(&self) -> (r: CreateWebhookDto)
        ensures
            r.event_type@ == self.event_type@,
    {
        let event_type = self.event_type.clone();
        assert(event_type@ =~= self.event_type@);
        CreateWebhookDto { event_type }
    }
}

/// Creates a webhook.
#[derive(Debug)]
pub struct CreateWebhook {
    pub body: CreateWebhookDto,
}

impl CreateWebhook {
    pub fn new(body: CreateWebhookDto) -> (r: CreateWebhook)
        ensures
            r.body == body,
    {
        CreateWebhook { body }
    }
}

impl Endpoint for CreateWebhook {
    type QueryParams = ();

    type RequestBody = CreateWebhookDto;

    type ResponseBody = ShowWebhookDetailsResponse;

    open spec fn overrides(&self) -> Overrides {
        Overrides { request_body: true, request_method: true, ..Overrides::none() }
    }

    fn path(&self) -> (r: String)
        ensures
            r@ == WEBHOOKS_PATH@,
    {
        WEBHOOKS_PATH.to_owned()
    }

    fn query(&self) -> (r: Option<()>)
        ensures
            r is None,
    {
        None
    }

    fn headers(&self) -> (r: HttpRequestHeaders)
        ensures
            r.authorization@ == Seq::<char>::empty(),
            r.content_type@ == JSON_MEDIA_TYPE@,
    {
        HttpRequestHeaders::default()
    }

    fn request_body(&self) -> (r: Option<CreateWebhookDto>)
        ensures
            r is Some,
            r->0.event_type@ == self.body.event_type@,
    {
        Some(self.body.clone())
    }

    fn request_method(&self) -> (r: Method)
        ensures
            r == Method::Post,
    {
        Method::Post
    }
}

/// The patch that updates a webhook.
pub type UpdateWebhookDto = Vec<UpdateWebhookDtoItem>;

/// One item of the patch that updates a webhook.
#[derive(Debug)]
pub struct UpdateWebhookDtoItem {
    /// The operation.
    pub op: Op,
    /// The JSON pointer to the place in the document that is changed.
    pub path: String,
    /// The value to apply; `remove` needs none.
    pub value: Option<String>,
    /// The JSON pointer to the place from which a value is moved.
    pub from: Option<String>,
}

impl Clone for UpdateWebhookDtoItem {
    /// A copy that holds the same in every field.
    fn clone(&self) -> (r: UpdateWebhookDtoItem)
        ensures
            r == *self,
    {
        UpdateWebhookDtoItem {
            op: self.op,
            path: self.path.clone(),
            value: self.value.clone(),
            from: self.from.clone(),
        }
    }
}

/// Updates a webhook, by its ID, with a patch.
#[derive(Debug)]
pub struct UpdateWebhook {
    pub id: String,
    pub body: UpdateWebhookDto,
}

impl UpdateWebhook {
    pub fn new(id: String, body: UpdateWebhookDto) -> (r: UpdateWebhook)
        ensures
            r.id == id,
            r.body == body,
    {
        UpdateWebhook { id, body }
    }
}

impl Endpoint for UpdateWebhook {
    type QueryParams = ();

    type RequestBody = UpdateWebhookDto;

    type ResponseBody = ShowWebhookDetailsResponse;

    open spec fn overrides(&self) -> Overrides {
        Overrides { request_body: true, request_method: true, ..Overrides::none() }
    }

    fn path(&self) -> (r: String)
        ensures
            r@ == webhook_path(self.id@),
    {
        webhook_path_of(self.id.as_str())
    }

    fn query(&self) -> (r: Option<()>)
        ensures
            r is None,
    {
        None
    }

    fn headers(&self) -> (r: HttpRequestHeaders)
        ensures
            r.authorization@ == Seq::<char>::empty(),
            r.content_type@ == JSON_MEDIA_TYPE@,
    {
        HttpRequestHeaders::default()
    }

    fn request_body(&self) -> (r: Option<UpdateWebhookDto>)
        ensures
            r is Some,
            r->0@ == self.body@,
    {
        let body = self.body.clone();
        assert(body@ =~= self.body@);
        Some(body)
    }

    fn request_method(&self) -> (r: Method)
        ensures
            r == Method::Patch,
    {
        Method::Patch
    }
}

/// Deletes a webhook, by its ID.
#[derive(Debug)]
pub struct DeleteWebhook {
    pub id: String,
}

impl DeleteWebhook {
    pub fn new(id: String) -> (r: DeleteWebhook)
        ensures
            r.id == id,
    {
        DeleteWebhook { id }
    }
}

impl Endpoint for DeleteWebhook {
    type QueryParams = ();

    type RequestBody = ();

    type ResponseBody = EmptyResponseBody;

    open spec fn overrides(&self) -> Overrides {
        Overrides { request_method: true, ..Overrides::none() }
    }

    fn path(&self) -> (r: String)
        ensures
            r@ == webhook_path(self.id@),
    {
        webhook_path_of(self.id.as_str())
    }

    fn query(&self) -> (r: Option<()>)
        ensures
            r is None,
    {
        None
    }

    fn headers(&self) -> (r: HttpRequestHeaders)
        ensures
            r.authorization@ == Seq::<char>::empty(),
            r.content_type@ == JSON_MEDIA_TYPE@,
    {
        HttpRequestHeaders::default()
    }

    fn request_method(&self) -> (r: Method)
        ensures
            r == Method::Delete,
    {
        Method::Delete
    }
}

/// What is needed to simulate a webhook event.
#[derive(Debug)]
pub struct SimulateWebhookEventDto {
    /// The ID of the webhook; without it the URL is required.
    pub webhook_id: Option<String>,
    /// The URL of the webhook endpoint; without it the ID is required.
    pub url: Option<String>,
    /// The name of one of the subscribed events.
    pub event_type: String,
    /// The version of the event type.
    pub resource_version: Option<String>,
}

impl Clone for SimulateWebhookEventDto {
    /// A copy that holds the same in every field.
    fn clone(&self) -> (r: SimulateWebhookEventDto)
        ensures
            r == *self,
    {
        SimulateWebhookEventDto {
            webhook_id: self.webhook_id.clone(),
            url: self.url.clone(),
            event_type: self.event_type.clone(),
            resource_version: self.resource_version.clone(),
        }
    }
}

/// The notification that a simulation produced.
#[derive(Clone, Debug)]
pub struct SimulateWebhookEventResponse {
    /// The ID of the notification.
    pub id: Option<String>,
    /// The date and time when the notification was created.
    pub create_time: Option<String>,
    /// The name of the resource that the event relates to.
    pub resource_type: Option<String>,
    /// The event version.
    pub event_version: Option<String>,
    /// The event that triggered the notification.
    pub event_type: Option<String>,
    /// A summary of the notification.
    pub summary: Option<String>,
    /// The resource version.
    pub resource_version: Option<String>,
    /// The resource that triggered the notification.
    pub resource: Option<serde_json::Value>,
    /// Request-related HATEOAS links.
    pub links: Option<Vec<LinkDescription>>,
}

/// Simulates a webhook event.
#[derive(Debug)]
pub struct SimulateWebhookEvent {
    pub body: SimulateWebhookEventDto,
}

impl SimulateWebhookEvent {
    pub fn new(body: SimulateWebhookEventDto) -> (r: SimulateWebhookEvent)
        ensures
            r.body == body,
    {
        SimulateWebhookEvent { body }
    }
}

impl Endpoint for SimulateWebhookEvent {
    type QueryParams = ();

    type RequestBody = SimulateWebhookEventDto;

    type ResponseBody = SimulateWebhookEventResponse;

    open spec fn overrides(&self) -> Overrides {
        Overrides { request_body: true, request_method: true, ..Overrides::none() }
    }

    fn path(&self) -> (r: String)
        ensures
            r@ == SIMULATE_EVENT_PATH@,
    {
        SIMULATE_EVENT_PATH.to_owned()
    }

    fn query(&self) -> (r: Option<()>)
        ensures
            r is None,
    {
        None
    }

    fn headers(&self) -> (r: HttpRequestHeaders)
        ensures
            r.authorization@ == Seq::<char>::empty(),
            r.content_type@ == JSON_MEDIA_TYPE@,
    {
        HttpRequestHeaders::default()
    }

    fn request_body(&self) -> (r: Option<SimulateWebhookEventDto>)
        ensures
            r == Some(self.body),
    {
        Some(self.body.clone())
    }

    fn request_method(&self) -> (r: Method)
        ensures
            r == Method::Post,
    {
        Method::Post
    }
}

/// The event types to which a webhook can be subscribed.
#[derive(Clone, Debug)]
pub struct ListAvailableWebhookEventsResponse {
    pub event_types: Vec<ShowWebhookEventType>,
}

/// Lists the event types to which a webhook can be subscribed.
#[derive(Clone, Copy, Debug)]
pub struct ListAvailableWebhookEvents {}

impl ListAvailableWebhookEvents {
    pub fn new() -> (r: ListAvailableWebhookEvents) {
        ListAvailableWebhookEvents {  }
    }
}

impl Endpoint for ListAvailableWebhookEvents {
    type QueryParams = ();

    type RequestBody = ();

    type ResponseBody = ListAvailableWebhookEventsResponse;

    fn path(&self) -> (r: String)
        ensures
            r@ == EVENT_TYPES_PATH@,
    {
        EVENT_TYPES_PATH.to_owned()
    }

    fn query(&self) -> (r: Option<()>)
        ensures
            r is None,
    {
        None
    }

    fn headers(&self) -> (r: HttpRequestHeaders)
        ensures
            r.authorization@ == Seq::<char>::empty(),
            r.content_type@ == JSON_MEDIA_TYPE@,
    {
        HttpRequestHeaders::default()
    }
}

} // verus!
