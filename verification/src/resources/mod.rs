//! The operations of the provider's API and the data they exchange.

pub mod create_webhook_event_type;
pub mod enums;
pub mod link_description;
pub mod show_webhook_event_type;
pub mod webhooks;
