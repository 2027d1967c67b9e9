use row_cache::DefaultExpiry;
use row_cache::DEFAULT_TTL_FOR_NONE;
use row_cache::MySql;
use row_cache::Postgres;
use row_cache::Sqlite;
use row_cache::point_query;

#[test]
fn default_policy_keeps_absent_entries_for_a_minute() {
    let policy = DefaultExpiry::default();
    assert_eq!(policy.ttl_for_none, DEFAULT_TTL_FOR_NONE);
    assert_eq!(policy.ttl_for_none, 60000);
}

#[test]
fn present_values_get_no_override() {
    let policy = DefaultExpiry::new(100);
    assert_eq!(policy.expire_after_create(&Some(5u64)), None);
}

#[test]
fn absent_values_get_the_negative_cache_lifetime() {
    let policy = DefaultExpiry::new(100);
    assert_eq!(policy.expire_after_create::<u64>(&None), Some(100));
}

#[test]
fn sqlite_point_query() {
    let q = point_query::<Sqlite>("cakes", "id");
    assert_eq!(q, "SELECT * FROM \"cakes\" WHERE \"id\" = ?");
}

#[test]
fn mysql_point_query() {
    let q = point_query::<MySql>("users", "user_id");
    assert_eq!(q, "SELECT * FROM `users` WHERE `user_id` = ?");
}

#[test]
fn postgres_point_query() {
    let q = point_query::<Postgres>("users", "uuid");
    assert_eq!(q, "SELECT * FROM \"users\" WHERE \"uuid\" = $1");
}
