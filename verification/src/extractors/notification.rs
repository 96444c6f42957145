//! A message on its way to a device.

use crate::routers::router_data::RouterData;
use vstd::prelude::*;

verus! {

/// The headers of a notification that matter for delivery.
#[derive(Clone, Debug, PartialEq, Eq)]
pub struct NotificationHeaders {
    /// How long the message may wait for the device, in seconds.
    pub ttl: i64,
    /// The topic that the message replaces, if any.
    pub topic: Option<String>,
    /// The content encoding of the payload.
    pub encoding: Option<String>,
    /// The encryption parameters.
    pub encryption: Option<String>,
    /// The encryption key parameters.
    pub encryption_key: Option<String>,
    /// The crypto key parameters.
    pub crypto_key: Option<String>,
}

/// The device that receives.
#[derive(Clone, Debug, PartialEq, Eq)]
pub struct User {
    /// The identifier of the device.
    pub uaid: u128,
    /// The name of the backend that the device is registered with.
    pub router_type: String,
    /// What that backend stored at registration.
    pub router_data: Option<RouterData>,
}

/// The subscription that a message is addressed to.
#[derive(Clone, Debug, PartialEq, Eq)]
pub struct Subscription {
    /// The device behind the subscription.
    pub user: User,
    /// The channel of the subscription.
    pub channel_id: u128,
    /// The VAPID claim of the sender, where the request carried one.
    pub vapid: Option<String>,
}

/// One message to deliver.
#[derive(Clone, Debug, PartialEq, Eq)]
pub struct Notification {
    /// The identifier of the message.
    pub message_id: String,
    /// Where the message goes.
    pub subscription: Subscription,
    /// The delivery headers.
    pub headers: NotificationHeaders,
    /// When the message came in, in seconds since the epoch.
    pub timestamp: u64,
    /// The encrypted payload, if the message has one.
    pub data: Option<String>,
}

} // verus!
