use std::sync::Arc;

use row_cache::LookupOutcome;
use row_cache::RowCache;
use row_cache::RowCacheBuilder;
use row_cache::SharedError;
use row_cache::Sqlite;

#[derive(Debug, Clone, PartialEq, Eq)]
struct Cake {
    id: i64,
    name: String,
    fruit_id: Option<i64>,
}

impl Cake {
    fn new(id: i64) -> Self {
        Cake { id, name: "berry delight".into(), fruit_id: Some(42) }
    }
}

fn scenario_cache() -> RowCache<Cake> {
    RowCacheBuilder::new::<Sqlite>(512, "cakes")
        .time_to_idle(200)
        .time_to_live(300)
        .time_to_live_for_none(100)
        .build()
}

/// Loads `key` through the full miss protocol, handing the cache the given
/// backing-store outcome at instant `now`.
fn load(
    cache: &mut RowCache<Cake>,
    key: i64,
    row: Option<Cake>,
    now: u64,
) -> Result<Option<Arc<Cake>>, SharedError> {
    match cache.get_or_begin_load(key, now) {
        LookupOutcome::Hit(m) => Ok(m),
        LookupOutcome::MustLoad => cache.complete_load(key, Ok(RowCache::wrap_row(row)), now),
        LookupOutcome::InFlight => panic!("no load should be in flight"),
    }
}

#[test]
fn scenario_absent_key_expires_quickly() {
    let mut cache = scenario_cache();
    assert_eq!(cache.query, "SELECT * FROM \"cakes\" WHERE \"id\" = ?");
    assert_eq!(cache.max_capacity, 512);

    // key -1 is not in the store: the first request is elected to load
    assert!(matches!(cache.get_or_begin_load(-1, 0), LookupOutcome::MustLoad));
    let r = cache.complete_load(-1, Ok(None), 0);
    assert_eq!(r.unwrap(), None);

    // the absent outcome is a cache entry of its own
    assert_eq!(cache.get(-1, 50), Some(None));

    // after the 100 ms absent lifetime the entry is gone and a re-load is
    // attempted, long before the 200/300 ms present rules would fire
    assert_eq!(cache.get(-1, 100), None);
    assert!(matches!(cache.get_or_begin_load(-1, 100), LookupOutcome::MustLoad));
}

#[test]
fn scenario_present_keys_return_their_rows() {
    let mut cache = scenario_cache();
    let cakes = [Cake::new(0), Cake::new(1), Cake::new(2)];
    for cake in cakes.iter() {
        let got = load(&mut cache, cake.id, Some(cake.clone()), 0)
            .unwrap()
            .expect("row should be present");
        assert_eq!(*got, *cake);
    }
    // subsequent calls are hits and observe the same wrapped rows
    for cake in cakes.iter() {
        let got = match cache.get_or_begin_load(cake.id, 10) {
            LookupOutcome::Hit(m) => m.expect("row should be present"),
            _ => panic!("should be a hit"),
        };
        assert_eq!(*got, *cake);
    }
}

#[test]
fn scenario_idle_and_lifetime_rules() {
    let mut cache = scenario_cache();
    load(&mut cache, 0, Some(Cake::new(0)), 0).unwrap();
    load(&mut cache, 1, Some(Cake::new(1)), 0).unwrap();

    // touching key 1 at half the idle lifetime resets its idle clock
    assert!(cache.get(1, 100).is_some());

    // at 200 ms key 0 has idled out, key 1 has not
    assert!(cache.get(0, 200).is_none());
    assert!(cache.get(1, 200).is_some());

    // the 300 ms lifetime ceiling expires key 1 even though it was read at
    // 200 ms
    assert!(cache.get(1, 300).is_none());
}

#[test]
fn single_flight_elects_exactly_one_loader() {
    let mut cache = scenario_cache();

    // of two concurrent requests for one never-seen key, only the first is
    // elected; the second waits for the shared outcome
    assert!(matches!(cache.get_or_begin_load(7, 0), LookupOutcome::MustLoad));
    assert!(matches!(cache.get_or_begin_load(7, 1), LookupOutcome::InFlight));
    assert!(matches!(cache.get_or_begin_load(7, 2), LookupOutcome::InFlight));

    // the one load resolves; the elected caller and every waiter observe the
    // same wrapped row
    let cake = Cake::new(7);
    let r = cache.complete_load(7, Ok(RowCache::wrap_row(Some(cake.clone()))), 5);
    assert_eq!(*r.unwrap().unwrap(), cake);
    let got = match cache.get_or_begin_load(7, 6) {
        LookupOutcome::Hit(m) => m.expect("row should be present"),
        _ => panic!("should be a hit"),
    };
    assert_eq!(*got, cake);
}

#[test]
fn failures_are_shared_but_never_cached() {
    let mut cache = scenario_cache();
    assert!(matches!(cache.get_or_begin_load(3, 0), LookupOutcome::MustLoad));
    let r = cache.complete_load(3, Err(SharedError::new("connection reset".to_string())), 0);
    let err = r.expect_err("the failure reaches the caller");
    assert_eq!(err.message(), "connection reset");
    let shared = err.clone();
    assert_eq!(shared.message(), "connection reset");

    // no entry exists for the key, and the very next request re-attempts
    assert_eq!(cache.get(3, 0), None);
    assert!(!cache.entries.contains_key(&3));
    assert!(matches!(cache.get_or_begin_load(3, 1), LookupOutcome::MustLoad));
}

#[test]
fn invalidation_forces_a_reload() {
    let mut cache = scenario_cache();
    let cake = Cake::new(4);
    load(&mut cache, 4, Some(cake.clone()), 0).unwrap();
    assert!(cache.get(4, 1).is_some());

    cache.invalidate(4);
    assert_eq!(cache.get(4, 1), None);
    assert!(matches!(cache.get_or_begin_load(4, 1), LookupOutcome::MustLoad));
}

#[test]
fn invalidate_all_empties_the_cache() {
    let mut cache = scenario_cache();
    load(&mut cache, 0, Some(Cake::new(0)), 0).unwrap();
    load(&mut cache, 1, Some(Cake::new(1)), 0).unwrap();
    cache.invalidate_all();
    assert_eq!(cache.entries.len(), 0);
    assert_eq!(cache.get(0, 0), None);
    assert_eq!(cache.get(1, 0), None);
}

#[test]
fn wrap_row_shares_the_row() {
    let cake = Cake::new(9);
    let wrapped = RowCache::wrap_row(Some(cake.clone())).expect("present row");
    assert_eq!(*wrapped, cake);
    assert!(RowCache::<Cake>::wrap_row(None).is_none());
}

#[test]
fn builder_records_the_configuration() {
    let builder = RowCacheBuilder::for_query(64, "SELECT * FROM t WHERE k = ?".to_string())
        .time_to_idle(200)
        .time_to_live(300)
        .time_to_live_for_none(100);
    assert_eq!(builder.query, "SELECT * FROM t WHERE k = ?");
    assert_eq!(builder.max_capacity, 64);
    assert_eq!(builder.time_to_idle, Some(200));
    assert_eq!(builder.time_to_live, Some(300));
    assert_eq!(builder.expiry.ttl_for_none, 100);

    let cache: RowCache<Cake> = builder.build();
    assert_eq!(cache.time_to_idle, Some(200));
    assert_eq!(cache.time_to_live, Some(300));
    assert_eq!(cache.expiry.ttl_for_none, 100);
    assert!(cache.entries.is_empty());
}

#[test]
fn default_lifetimes_apply_until_set() {
    let cache: RowCache<Cake> = RowCache::for_table::<Sqlite>(512, "cakes", "id");
    assert_eq!(cache.query, "SELECT * FROM \"cakes\" WHERE \"id\" = ?");
    assert_eq!(cache.time_to_idle, None);
    assert_eq!(cache.time_to_live, None);
    assert_eq!(cache.expiry.ttl_for_none, 60000);

    let named: RowCache<Cake> = RowCache::new::<Sqlite>(512, "cakes");
    assert_eq!(named.query, "SELECT * FROM \"cakes\" WHERE \"id\" = ?");
}
