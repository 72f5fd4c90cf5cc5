//! Event types as a new webhook names them.

use vstd::prelude::*;

verus! {

/// An event type to subscribe a webhook to.
#[derive(Debug, PartialEq, Eq)]
pub struct CreateWebhookEventType {
    /// The unique event name.
    pub name: String,
}

impl Clone for CreateWebhookEventType {
    /// A copy with the same name.
    fn clone(&self) -> (r: CreateWebhookEventType)
        ensures
            r == *self,
    {
        CreateWebhookEventType { name: self.name.clone() }
    }
}

impl Default for CreateWebhookEventType {
    fn default() -> (r: CreateWebhookEventType)
        ensures
            r.name@ == Seq::<char>::empty(),
    {
        CreateWebhookEventType { name: String::new() }
    }
}

} // verus!
