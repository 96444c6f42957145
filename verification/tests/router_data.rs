use autoendpoint::routers::router_data::{RouterData, RouterValue};

fn text(s: &str) -> RouterValue {
    RouterValue::Text(s.to_string())
}

#[test]
fn empty_data_has_no_key() {
    let data = RouterData::new();
    assert_eq!(data.get("token"), None);
    assert_eq!(data.get_str("token"), None);
    assert_eq!(data.get(""), None);
}

#[test]
fn inserted_value_is_found_under_its_key() {
    let mut data = RouterData::new();
    data.insert("token".to_string(), text("abc"));
    data.insert("app_id".to_string(), text("dev"));
    assert_eq!(data.get("token"), Some(&text("abc")));
    assert_eq!(data.get_str("token"), Some("abc"));
    assert_eq!(data.get_str("app_id"), Some("dev"));
    assert_eq!(data.get("Token"), None);
    assert_eq!(data.get("tok"), None);
}

#[test]
fn later_insert_replaces_earlier_one() {
    let mut data = RouterData::new();
    data.insert("app_id".to_string(), text("dev"));
    data.insert("token".to_string(), text("abc"));
    data.insert("app_id".to_string(), text("unknown-app-id"));
    assert_eq!(data.get_str("app_id"), Some("unknown-app-id"));
    assert_eq!(data.get_str("token"), Some("abc"));
}

#[test]
fn value_that_is_no_text_is_no_text() {
    let mut data = RouterData::new();
    data.insert("token".to_string(), RouterValue::Json("42".to_string()));
    assert_eq!(data.get("token"), Some(&RouterValue::Json("42".to_string())));
    assert_eq!(data.get_str("token"), None);
    data.insert("token".to_string(), text("42"));
    assert_eq!(data.get_str("token"), Some("42"));
}
