use autoendpoint::status::StatusCode;

#[test]
fn status_takes_numbers_from_100_to_999() {
    assert!(StatusCode::from_u16(99).is_none());
    assert!(StatusCode::from_u16(0).is_none());
    assert!(StatusCode::from_u16(1000).is_none());
    assert!(StatusCode::from_u16(u16::MAX).is_none());
    assert_eq!(StatusCode::from_u16(100).unwrap().as_u16(), 100);
    assert_eq!(StatusCode::from_u16(999).unwrap().as_u16(), 999);
}

#[test]
fn named_statuses_have_their_numbers() {
    assert_eq!(StatusCode::created().as_u16(), 201);
    assert_eq!(StatusCode::bad_request().as_u16(), 400);
    assert_eq!(StatusCode::unauthorized().as_u16(), 401);
    assert_eq!(StatusCode::not_found().as_u16(), 404);
    assert_eq!(StatusCode::gone().as_u16(), 410);
    assert_eq!(StatusCode::payload_too_large().as_u16(), 413);
    assert_eq!(StatusCode::internal_server_error().as_u16(), 500);
    assert_eq!(StatusCode::bad_gateway().as_u16(), 502);
}

#[test]
fn reason_phrases_come_from_the_http_table() {
    assert_eq!(StatusCode::created().canonical_reason().as_deref(), Some("Created"));
    assert_eq!(StatusCode::bad_request().canonical_reason().as_deref(), Some("Bad Request"));
    assert_eq!(StatusCode::unauthorized().canonical_reason().as_deref(), Some("Unauthorized"));
    assert_eq!(StatusCode::not_found().canonical_reason().as_deref(), Some("Not Found"));
    assert_eq!(StatusCode::gone().canonical_reason().as_deref(), Some("Gone"));
    assert_eq!(
        StatusCode::payload_too_large().canonical_reason().as_deref(),
        Some("Payload Too Large")
    );
    assert_eq!(
        StatusCode::internal_server_error().canonical_reason().as_deref(),
        Some("Internal Server Error")
    );
    assert_eq!(StatusCode::bad_gateway().canonical_reason().as_deref(), Some("Bad Gateway"));
}

#[test]
fn reason_phrase_agrees_with_actix_for_every_status() {
    for code in 100u16..1000 {
        let ours = StatusCode::from_u16(code).unwrap().canonical_reason();
        let theirs = actix_web::http::StatusCode::from_u16(code)
            .unwrap()
            .canonical_reason()
            .map(String::from);
        assert_eq!(ours, theirs, "status {}", code);
    }
}

#[test]
fn status_without_a_phrase_has_none() {
    assert_eq!(StatusCode::from_u16(599).unwrap().canonical_reason(), None);
    assert_eq!(StatusCode::from_u16(999).unwrap().canonical_reason(), None);
}

#[test]
fn statuses_compare_by_number() {
    assert_eq!(StatusCode::from_u16(404).unwrap(), StatusCode::not_found());
    assert_ne!(StatusCode::gone(), StatusCode::not_found());
}
