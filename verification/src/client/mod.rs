//! The request-execution engine and the types it works on.

pub mod app_info;
pub mod auth;
pub mod clock;
pub mod decode;
pub mod encoding;
pub mod endpoint;
pub mod error;
pub mod executor;
pub mod headers;
pub mod paypal;
pub mod query;
pub mod query_laws;
pub mod request;
pub mod text;
pub mod web_address;

pub use self::endpoint::EmptyResponseBody;
