//! The payload of a registration request.

use vstd::prelude::*;

verus! {

/// What a device sends to register with a backend.
#[derive(Clone, Debug, PartialEq, Eq)]
pub struct RouterDataInput {
    /// The registration token that the relay gave the device.
    pub token: String,
    /// The channel to subscribe, where the device chose one.
    pub channel_id: Option<u128>,
    /// The public key of the sender, where the subscription is bound to one.
    pub key: Option<String>,
}

} // verus!
