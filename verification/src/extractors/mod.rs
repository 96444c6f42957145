//! What the HTTP layer extracts from a request and hands to a router.

pub mod notification;
pub mod router_data_input;
