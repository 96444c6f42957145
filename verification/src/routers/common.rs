//! What every router does the same way: build the body of the outbound
//! message, turn a relay's refusal into the error to report, and say which
//! metrics to count.

use crate::error::{ApiError, ApiErrorKind};
use crate::extractors::notification::Notification;
use crate::ids::{hyphenated, uuid_hyphenated};
use crate::routers::RouterError;
use crate::text::text_of;
use vstd::prelude::*;
use vstd::utf8::encode_utf8;

verus! {

/// The name of the counter of messages that a relay took.
pub const SENT_METRIC: &'static str = "notification.bridge.sent";

/// The name of the counter of payload bytes that went to a relay.
pub const DATA_METRIC: &'static str = "notification.message_data";

/// The name of the counter of messages that a relay refused.
pub const ERROR_METRIC: &'static str = "notification.bridge.error";

/// A counter to raise.
#[derive(Clone, Debug, PartialEq, Eq)]
pub struct Metric {
    /// The name of the counter.
    pub name: String,
    /// By how much to raise it.
    pub value: usize,
    /// The backend that sent.
    pub platform: String,
    /// The application that was sent for.
    pub app_id: String,
    /// The VAPID claim of the sender, where the failure is counted by sender.
    pub vapid: Option<String>,
}

/// Something for the caller to do after the router has decided. None of it
/// may change what the router answers.
#[derive(Clone, Debug, PartialEq, Eq)]
pub enum Effect {
    /// Count a metric. A failure to do so is dropped.
    Metric(Metric),
    /// Remove the user with this identifier from storage.
    RemoveUser(u128),
}

/// The error to report for a failed send, and what to do beside reporting.
#[derive(Debug)]
pub struct Handled {
    /// The error to report.
    pub error: ApiError,
    /// What the caller does, in order.
    pub effects: Vec<Effect>,
}

/// Whether an effect raises this counter by this much.
pub open spec fn counts(
    effect: Effect,
    name: Seq<char>,
    value: usize,
    platform: Seq<char>,
    app_id: Seq<char>,
    vapid: Option<Seq<char>>,
) -> bool {
    effect matches Effect::Metric(m) && m.name@ == name && m.value == value && m.platform@
        == platform && m.app_id@ == app_id && text_of(m.vapid) == vapid
}

/// The size of the payload of a notification, in bytes; zero where it has
/// none.
pub open spec fn payload_len(notification: Notification) -> usize {
    match notification.data {
        Some(data) => encode_utf8(data@).len() as usize,
        None => 0,
    }
}

/// The field of a message body under `key`, where there is a value for it.
pub open spec fn optional_entry(key: Seq<char>, value: Option<String>) -> Seq<
    (Seq<char>, Seq<char>),
> {
    match value {
        Some(v) => seq![(key, v@)],
        None => Seq::empty(),
    }
}

/// The body of the outbound message: the channel always; the payload, with
/// the encoding and key parameters that are there, only where the
/// notification has a payload.
pub open spec fn message_data(notification: Notification) -> Seq<(Seq<char>, Seq<char>)> {
    let channel = seq![("chid"@, uuid_hyphenated(notification.subscription.channel_id))];
    match notification.data {
        Some(data) => channel + seq![("body"@, data@)] + optional_entry(
            "con"@,
            notification.headers.encoding,
        ) + optional_entry("enc"@, notification.headers.encryption) + optional_entry(
            "cryptokey"@,
            notification.headers.crypto_key,
        ) + optional_entry("enckey"@, notification.headers.encryption_key),
        None => channel,
    }
}

/// Adds a field to a message body.
fn insert_entry(body: &mut Vec<(String, String)>, key: &str, value: String)
    ensures
        final(body).deep_view() == old(body).deep_view().push((key@, value@)),
{
    body.push((String::from_str(key), value));
    assert(body.deep_view() =~= old(body).deep_view().push((key@, value@)));
}

/// Adds a field to a message body if there is a value for it.
fn insert_opt(body: &mut Vec<(String, String)>, key: &str, value: &Option<String>)
    ensures
        final(body).deep_view() == old(body).deep_view() + optional_entry(key@, *value),
{
    match value {
        Some(v) => {
            insert_entry(body, key, v.clone());
            assert(body.deep_view() =~= old(body).deep_view() + optional_entry(key@, *value));
        },
        None => {
            assert(body.deep_view() =~= old(body).deep_view() + optional_entry(key@, *value));
        },
    }
}

/// Builds the body of the outbound message from a notification.
pub fn build_message_data(notification: &Notification) -> (body: Vec<(String, String)>)
    ensures
        body.deep_view() == message_data(*notification),
{
    let mut body: Vec<(String, String)> = Vec::new();
    assert(body.deep_view() =~= Seq::<(Seq<char>, Seq<char>)>::empty());
    insert_entry(&mut body, "chid", hyphenated(notification.subscription.channel_id));
    assert(body.deep_view() =~= seq![
        ("chid"@, uuid_hyphenated(notification.subscription.channel_id)),
    ]);
    match &notification.data {
        Some(data) => {
            insert_entry(&mut body, "body", data.clone());
            insert_opt(&mut body, "con", &notification.headers.encoding);
            insert_opt(&mut body, "enc", &notification.headers.encryption);
            insert_opt(&mut body, "cryptokey", &notification.headers.crypto_key);
            insert_opt(&mut body, "enckey", &notification.headers.encryption_key);
        },
        None => {},
    }
    body
}

/// Turns the failure of a send into the error to report, and says what the
/// caller does beside: count the failure, and, where the relay no longer
/// knows the registration, remove the user. The error is the relay's
/// failure, wrapped as it is; the removal cannot change it.
pub fn handle_error(
    error: RouterError,
    platform: &str,
    app_id: &str,
    uaid: u128,
    vapid: Option<String>,
) -> (handled: Handled)
    ensures
        handled.error.kind == ApiErrorKind::Router(error),
        handled.effects@.len() == if error is NotFound {
            2int
        } else {
            1int
        },
        counts(handled.effects@[0], ERROR_METRIC@, 1, platform@, app_id@, text_of(vapid)),
        error is NotFound ==> handled.effects@[1] == Effect::RemoveUser(uaid),
{
    let mut effects: Vec<Effect> = Vec::new();
    effects.push(
        Effect::Metric(
            Metric {
                name: String::from_str(ERROR_METRIC),
                value: 1,
                platform: String::from_str(platform),
                app_id: String::from_str(app_id),
                vapid,
            },
        ),
    );
    match &error {
        RouterError::NotFound => {
            effects.push(Effect::RemoveUser(uaid));
        },
        _ => {},
    }
    Handled { error: ApiError::from(ApiErrorKind::Router(error)), effects }
}

/// The metrics of a message that the relay took: one more message sent,
/// and the bytes of its payload.
pub fn incr_success_metrics(platform: &str, app_id: &str, notification: &Notification) -> (effects:
    Vec<Effect>)
    ensures
        effects@.len() == 2,
        counts(effects@[0], SENT_METRIC@, 1, platform@, app_id@, None),
        counts(effects@[1], DATA_METRIC@, payload_len(*notification), platform@, app_id@, None),
{
    let data_len: usize = match &notification.data {
        Some(data) => data.as_str().len(),
        None => 0,
    };
    let mut effects: Vec<Effect> = Vec::new();
    effects.push(
        Effect::Metric(
            Metric {
                name: String::from_str(SENT_METRIC),
                value: 1,
                platform: String::from_str(platform),
                app_id: String::from_str(app_id),
                vapid: None,
            },
        ),
    );
    effects.push(
        Effect::Metric(
            Metric {
                name: String::from_str(DATA_METRIC),
                value: data_len,
                platform: String::from_str(platform),
                app_id: String::from_str(app_id),
                vapid: None,
            },
        ),
    );
    effects
}

} // verus!
