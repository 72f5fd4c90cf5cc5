//! Enumerations that the resources share.

pub mod anchor_type;
pub mod op;
pub mod verification_status;
