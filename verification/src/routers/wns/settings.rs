//! Settings of the notification-hub backend.

use vstd::prelude::*;

verus! {

/// What the operator configures for the backend.
#[derive(Clone, Debug, PartialEq, Eq)]
pub struct WnsSettings {
    /// The shortest TTL, in seconds, that goes to the relay.
    pub min_ttl: u64,
    /// The credentials of every application, as the JSON text that the
    /// operator wrote.
    pub server_credentials: String,
    /// The address of the relay.
    pub base_url: String,
    /// The largest payload, in bytes, that the relay takes.
    pub max_data: usize,
    /// How long to wait for the relay, in seconds.
    pub timeout: usize,
}

} // verus!
