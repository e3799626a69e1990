use aiql_core::scoping::TenantScoper;
use aiql_core::temporal::TemporalModifier;
use aiql_core::time::UtcTime;

fn scope(q: &str) -> String {
    TenantScoper::try_apply_scope(q, "42", "tenant_id").unwrap()
}

#[test]
fn scope_added_at_end() {
    assert_eq!(scope("SELECT * FROM users  "), "SELECT * FROM users WHERE tenant_id = '42'");
}

#[test]
fn scope_joined_to_existing_where() {
    assert_eq!(
        scope("SELECT * FROM users WHERE age > 3"),
        "SELECT * FROM users WHERE tenant_id = '42' AND age > 3"
    );
}

#[test]
fn scope_put_before_order_by() {
    assert_eq!(
        scope("SELECT * FROM users ORDER BY name LIMIT 5"),
        "SELECT * FROM users WHERE tenant_id = '42' ORDER BY name LIMIT 5"
    );
}

#[test]
fn scope_before_lowercase_group() {
    assert_eq!(
        scope("select count(*) from users group by city"),
        "select count(*) from users WHERE tenant_id = '42' group by city"
    );
}

#[test]
fn lowercase_where_leaves_query_unchanged() {
    assert_eq!(scope("select * from users where age > 3"), "select * from users where age > 3");
}

#[test]
fn scope_with_non_ascii_text_before_tail() {
    assert_eq!(
        scope("SELECT * FROM café ORDER BY x"),
        "SELECT * FROM café WHERE tenant_id = '42' ORDER BY x"
    );
}

#[test]
fn rfc3339_of_epoch() {
    let t = UtcTime::from_timestamp(0, 0).unwrap();
    assert_eq!(t.to_rfc3339(), "1970-01-01T00:00:00+00:00");
    assert_eq!(t.to_display(), "1970-01-01 00:00:00 UTC");
    assert_eq!(t.seconds(), 0);
    assert_eq!(t.nanoseconds(), 0);
}

#[test]
fn out_of_range_time_is_refused() {
    assert!(UtcTime::from_timestamp(i64::MAX, 0).is_none());
    assert!(UtcTime::from_timestamp(0, 1_500_000_000).is_none());
}

#[test]
fn temporal_condition_added() {
    let t = UtcTime::from_timestamp(1_700_000_000, 0).unwrap();
    assert_eq!(
        TemporalModifier::try_modify_query("SELECT * FROM events", &t, "created_at").unwrap(),
        "SELECT * FROM events WHERE created_at <= '2023-11-14T22:13:20+00:00'"
    );
    assert_eq!(
        TemporalModifier::try_modify_query("SELECT * FROM events WHERE kind = 'a'", &t, "ts").unwrap(),
        "SELECT * FROM events WHERE ts <= '2023-11-14T22:13:20+00:00' AND kind = 'a'"
    );
}

#[test]
fn time_range_follows_chrono() {
    assert!(UtcTime::from_timestamp(-8_334_601_228_800, 0).is_some());
    assert!(UtcTime::from_timestamp(-8_334_601_228_801, 999_999_999).is_none());
    assert!(UtcTime::from_timestamp(-8_334_601_315_200, 0).is_none());
    assert!(UtcTime::from_timestamp(8_210_266_876_799, 999_999_999).is_some());
    assert!(UtcTime::from_timestamp(8_210_266_876_800, 0).is_none());
    assert!(UtcTime::from_timestamp(59, 1_500_000_000).is_some());
    assert!(UtcTime::from_timestamp(58, 1_500_000_000).is_none());
    assert!(UtcTime::from_timestamp(59, 2_000_000_000).is_none());
}
