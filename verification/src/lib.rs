//! Notification dispatch core of a push-message delivery service.

pub mod cause;
pub mod error;
pub mod extractors;
pub mod ids;
pub mod routers;
pub mod status;
pub mod text;
pub mod ttl;
pub mod validation;
