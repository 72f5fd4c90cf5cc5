//! Typed client engine for the PayPal REST API: URL composition, the bearer
//! token lifecycle, request preparation and response normalisation.

pub mod client;
pub mod resources;
