//! The notification-hub backend.

pub mod error;
pub mod router;
pub mod settings;
