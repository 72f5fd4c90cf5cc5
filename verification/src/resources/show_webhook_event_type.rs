//! Event types as the provider lists them.

use vstd::prelude::*;

verus! {

/// An event type that a webhook is, or can be, subscribed to.
#[derive(Clone, Debug, PartialEq, Eq)]
pub struct ShowWebhookEventType {
    /// The unique event name; `*` stands for all events.
    pub name: String,
    /// A human-readable description of the event.
    pub description: Option<String>,
    /// The status of a webhook event.
    pub status: Option<String>,
    /// The resource versions that the event type exists in.
    pub resource_versions: Option<Vec<String>>,
}

impl Default for ShowWebhookEventType {
    fn default() -> (r: ShowWebhookEventType)
        ensures
            r.name@ == Seq::<char>::empty(),
            r.description is None,
            r.status is None,
            r.resource_versions is None,
    {
        ShowWebhookEventType {
            name: String::new(),
            description: None,
            status: None,
            resource_versions: None,
        }
    }
}

} // verus!
