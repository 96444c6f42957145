use autoendpoint::ttl::{clamp_ttl, MAX_TTL};

#[test]
fn ceiling_is_twenty_eight_days() {
    assert_eq!(MAX_TTL, 28 * 24 * 60 * 60);
}

#[test]
fn requested_ttl_below_floor_is_raised() {
    assert_eq!(clamp_ttl(60, 0), 60);
    assert_eq!(clamp_ttl(60, 59), 60);
}

#[test]
fn requested_ttl_between_floor_and_ceiling_is_kept() {
    assert_eq!(clamp_ttl(60, 60), 60);
    assert_eq!(clamp_ttl(60, 61), 61);
    assert_eq!(clamp_ttl(0, 0), 0);
    assert_eq!(clamp_ttl(60, 2_419_200), 2_419_200);
}

#[test]
fn requested_ttl_above_ceiling_is_capped() {
    assert_eq!(clamp_ttl(60, 2_419_201), 2_419_200);
    assert_eq!(clamp_ttl(60, i64::MAX), MAX_TTL);
}

#[test]
fn floor_above_ceiling_gives_ceiling() {
    assert_eq!(clamp_ttl(3_000_000, 10), MAX_TTL);
    assert_eq!(clamp_ttl(u64::MAX, i64::MAX), MAX_TTL);
}

#[test]
fn negative_request_is_raised_to_floor() {
    assert_eq!(clamp_ttl(60, -1), 60);
    assert_eq!(clamp_ttl(0, i64::MIN), 0);
}
