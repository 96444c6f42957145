use autoendpoint::error::ApiErrorKind;
use autoendpoint::extractors::notification::{
    Notification, NotificationHeaders, Subscription, User,
};
use autoendpoint::routers::common::{
    build_message_data, handle_error, incr_success_metrics, Effect, Metric, DATA_METRIC,
    ERROR_METRIC, SENT_METRIC,
};
use autoendpoint::routers::RouterError;
use autoendpoint::cause::Cause;

const CHANNEL_ID: u128 = 0xdeadbeef_13f9_4639_87f9_2ff731824f34;
const UAID: u128 = 0x0a0b0c0d_0000_4000_8000_000000000001;

fn notification(data: Option<&str>) -> Notification {
    Notification {
        message_id: "test-message-id".to_string(),
        subscription: Subscription {
            user: User { uaid: UAID, router_type: "wns".to_string(), router_data: None },
            channel_id: CHANNEL_ID,
            vapid: None,
        },
        headers: NotificationHeaders {
            ttl: 0,
            topic: Some("test-topic".to_string()),
            encoding: Some("test-encoding".to_string()),
            encryption: Some("test-encryption".to_string()),
            encryption_key: Some("test-encryption-key".to_string()),
            crypto_key: Some("test-crypto-key".to_string()),
        },
        timestamp: 0,
        data: data.map(String::from),
    }
}

fn pairs(entries: &[(&str, &str)]) -> Vec<(String, String)> {
    entries.iter().map(|(k, v)| (k.to_string(), v.to_string())).collect()
}

#[test]
fn message_without_payload_has_only_the_channel() {
    assert_eq!(
        build_message_data(&notification(None)),
        pairs(&[("chid", "deadbeef-13f9-4639-87f9-2ff731824f34")])
    );
}

#[test]
fn message_with_payload_has_body_and_parameters() {
    assert_eq!(
        build_message_data(&notification(Some("test-data"))),
        pairs(&[
            ("chid", "deadbeef-13f9-4639-87f9-2ff731824f34"),
            ("body", "test-data"),
            ("con", "test-encoding"),
            ("enc", "test-encryption"),
            ("cryptokey", "test-crypto-key"),
            ("enckey", "test-encryption-key"),
        ])
    );
}

#[test]
fn message_leaves_out_parameters_that_are_not_there() {
    let mut n = notification(Some("test-data"));
    n.headers.encryption = None;
    n.headers.encryption_key = None;
    assert_eq!(
        build_message_data(&n),
        pairs(&[
            ("chid", "deadbeef-13f9-4639-87f9-2ff731824f34"),
            ("body", "test-data"),
            ("con", "test-encoding"),
            ("cryptokey", "test-crypto-key"),
        ])
    );
}

#[test]
fn channel_is_written_as_the_uuid_crate_writes_it() {
    for id in [0u128, 1, u128::MAX, CHANNEL_ID, UAID] {
        let mut n = notification(None);
        n.subscription.channel_id = id;
        let body = build_message_data(&n);
        assert_eq!(body[0].1, uuid::Uuid::from_u128(id).to_string());
        assert_eq!(body[0].1.len(), 36);
    }
}

fn failure_metric(vapid: Option<&str>) -> Effect {
    Effect::Metric(Metric {
        name: ERROR_METRIC.to_string(),
        value: 1,
        platform: "wnsv1".to_string(),
        app_id: "dev".to_string(),
        vapid: vapid.map(String::from),
    })
}

#[test]
fn gone_registration_removes_the_user_once() {
    let handled = handle_error(RouterError::NotFound, "wnsv1", "dev", UAID, None);
    assert_eq!(handled.error.kind, ApiErrorKind::Router(RouterError::NotFound));
    assert_eq!(handled.effects, vec![failure_metric(None), Effect::RemoveUser(UAID)]);
    let removals = handled.effects.iter().filter(|e| matches!(e, Effect::RemoveUser(_))).count();
    assert_eq!(removals, 1);
    assert_eq!(handled.error.kind.status().as_u16(), 410);
    assert_eq!(handled.error.kind.errno(), Some(106));
}

#[test]
fn other_failures_leave_storage_alone() {
    let failures = vec![
        RouterError::Authentication,
        RouterError::RequestTimeout,
        RouterError::Connect(Cause::new("refused")),
        RouterError::Upstream { status: "500".to_string(), message: "boom".to_string() },
    ];
    for failure in failures {
        let handled = handle_error(failure.clone(), "wnsv1", "dev", UAID, None);
        assert_eq!(handled.error.kind, ApiErrorKind::Router(failure));
        assert_eq!(handled.effects, vec![failure_metric(None)]);
    }
}

#[test]
fn timeout_is_never_a_gone_registration() {
    let handled = handle_error(RouterError::RequestTimeout, "wnsv1", "dev", UAID, None);
    assert_eq!(handled.error.kind.status().as_u16(), 502);
    assert!(!handled.effects.iter().any(|e| matches!(e, Effect::RemoveUser(_))));
}

#[test]
fn failure_metric_carries_the_vapid_claim() {
    let handled = handle_error(
        RouterError::Authentication,
        "wnsv1",
        "dev",
        UAID,
        Some("mailto:admin@example.com".to_string()),
    );
    assert_eq!(handled.effects, vec![failure_metric(Some("mailto:admin@example.com"))]);
}

#[test]
fn metric_names() {
    assert_eq!(SENT_METRIC, "notification.bridge.sent");
    assert_eq!(ERROR_METRIC, "notification.bridge.error");
    assert_eq!(DATA_METRIC, "notification.message_data");
}

fn success_metric(name: &str, value: usize) -> Effect {
    Effect::Metric(Metric {
        name: name.to_string(),
        value,
        platform: "wnsv1".to_string(),
        app_id: "dev".to_string(),
        vapid: None,
    })
}

#[test]
fn success_counts_one_sent_message() {
    assert_eq!(
        incr_success_metrics("wnsv1", "dev", &notification(None)),
        vec![
            success_metric("notification.bridge.sent", 1),
            success_metric("notification.message_data", 0),
        ]
    );
}

#[test]
fn success_counts_the_bytes_of_the_payload() {
    assert_eq!(
        incr_success_metrics("wnsv1", "dev", &notification(Some("test-data"))),
        vec![
            success_metric("notification.bridge.sent", 1),
            success_metric("notification.message_data", 9),
        ]
    );
    assert_eq!(
        incr_success_metrics("wnsv1", "dev", &notification(Some("\u{e9}\u{1f600}")))[1],
        success_metric("notification.message_data", 6)
    );
}
