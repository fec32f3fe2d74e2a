use async_std::sync::{Arc, RwLock};
use async_std::task;
use consul_rs::api::{build_entry, commit_poll};
use consul_rs::cache::{AddressCache, SelectError};
use consul_rs::health::{ServiceAddress, ServiceEntry};
use consul_rs::watch::{Policy, WatchService};

fn entry_record(
    address: Option<&str>,
    port: Option<usize>,
    modify_index: Option<u64>,
) -> ServiceEntry {
    let mut svc = consul_rs::agent::AgentService::default();
    svc.Address = address.map(|s| s.to_string());
    svc.Port = port;
    svc.ModifyIndex = modify_index;
    let mut e = ServiceEntry::default();
    e.Service = Some(svc);
    e
}

fn stored(index: u64, addresses: &[&str]) -> ServiceAddress {
    ServiceAddress {
        index,
        address: addresses.iter().map(|s| s.to_string()).collect(),
    }
}

fn target(name: &str) -> WatchService {
    let mut ws = WatchService::default();
    ws.service_name = name.to_string();
    ws
}

#[test]
fn get_on_fresh_cache_is_none() {
    let cache = AddressCache::new();
    assert!(cache.get("web", "").is_none());
}

#[test]
fn put_then_get_returns_entry() {
    let mut cache = AddressCache::new();
    cache.put("web", "", stored(5, &["10.0.0.1:8080"]));
    let e = cache.get("web", "").expect("entry stored");
    assert_eq!(e.index, 5);
    assert_eq!(e.address, vec![String::from("10.0.0.1:8080")]);
}

#[test]
fn put_replaces_wholesale() {
    let mut cache = AddressCache::new();
    cache.put("web", "", stored(5, &["a:1", "b:2"]));
    cache.put("web", "", stored(9, &["c:3"]));
    let e = cache.get("web", "").expect("entry stored");
    assert_eq!(e.index, 9);
    assert_eq!(e.address, vec![String::from("c:3")]);
}

#[test]
fn keys_with_same_name_and_different_tags_are_distinct() {
    let mut cache = AddressCache::new();
    cache.put("web", "", stored(1, &["a:1"]));
    cache.put("web", "v2", stored(2, &["b:2"]));
    assert_eq!(cache.get("web", "").unwrap().index, 1);
    assert_eq!(cache.get("web", "v2").unwrap().index, 2);
    assert!(cache.get("webv2", "").is_none());
}

#[test]
fn puts_for_two_keys_never_lose_an_update() {
    let mut cache = AddressCache::new();
    cache.put("alpha", "", stored(1, &["a:1"]));
    cache.put("beta", "", stored(2, &["b:2"]));
    assert_eq!(cache.get("alpha", "").unwrap().address, vec![String::from("a:1")]);
    assert_eq!(cache.get("beta", "").unwrap().address, vec![String::from("b:2")]);
}

#[test]
fn concurrent_puts_for_two_keys_never_lose_an_update() {
    let cache = Arc::new(RwLock::new(AddressCache::new()));
    let c1 = cache.clone();
    let c2 = cache.clone();
    let t1 = task::spawn(async move {
        let mut guard = c1.write().await;
        guard.put("alpha", "", stored(1, &["a:1"]));
    });
    let t2 = task::spawn(async move {
        let mut guard = c2.write().await;
        guard.put("beta", "", stored(2, &["b:2"]));
    });
    task::block_on(async {
        t1.await;
        t2.await;
    });
    let guard = task::block_on(cache.read());
    assert_eq!(guard.get("alpha", "").unwrap().address, vec![String::from("a:1")]);
    assert_eq!(guard.get("beta", "").unwrap().address, vec![String::from("b:2")]);
}

#[test]
fn select_on_unpopulated_key_is_not_found() {
    let mut cache = AddressCache::new();
    assert_eq!(cache.random_policy("web", ""), Err(SelectError::NotFound));
    assert_eq!(cache.round_robin_policy("web", ""), Err(SelectError::NotFound));
    assert_eq!(cache.select("web", "", Policy::Random), Err(SelectError::NotFound));
    cache.put("web", "", stored(3, &[]));
    assert_eq!(cache.random_policy("web", ""), Err(SelectError::NotFound));
    assert_eq!(cache.round_robin_policy("web", ""), Err(SelectError::NotFound));
}

#[test]
fn random_select_returns_only_cached_addresses_and_covers_both() {
    let mut cache = AddressCache::new();
    cache.put("web", "", stored(3, &["a:1", "b:2"]));
    let mut saw_a = false;
    let mut saw_b = false;
    for _ in 0..10000 {
        let a = cache.random_policy("web", "").expect("populated key");
        if a == "a:1" {
            saw_a = true;
        } else if a == "b:2" {
            saw_b = true;
        } else {
            panic!("selection outside the cached addresses: {}", a);
        }
    }
    assert!(saw_a && saw_b);
}

#[test]
fn round_robin_alternates_between_two_addresses() {
    let mut cache = AddressCache::new();
    cache.put("web", "", stored(3, &["a:1", "b:2"]));
    assert_eq!(cache.round_robin_policy("web", "").unwrap(), "a:1");
    assert_eq!(cache.round_robin_policy("web", "").unwrap(), "b:2");
    assert_eq!(cache.round_robin_policy("web", "").unwrap(), "a:1");
    assert_eq!(cache.round_robin_policy("web", "").unwrap(), "b:2");
}

#[test]
fn round_robin_wraps_on_single_address() {
    let mut cache = AddressCache::new();
    cache.put("web", "", stored(3, &["a:1"]));
    assert_eq!(cache.round_robin_policy("web", "").unwrap(), "a:1");
    assert_eq!(cache.round_robin_policy("web", "").unwrap(), "a:1");
}

#[test]
fn select_dispatches_on_policy() {
    let mut cache = AddressCache::new();
    cache.put("web", "", stored(3, &["a:1", "b:2"]));
    let r = cache.select("web", "", Policy::Random).unwrap();
    assert!(r == "a:1" || r == "b:2");
    assert_eq!(cache.select("web", "", Policy::RoundRobin).unwrap(), "a:1");
    assert_eq!(cache.select("web", "", Policy::RoundRobin).unwrap(), "b:2");
}

#[test]
fn select_error_message_names_the_condition() {
    assert_eq!(SelectError::NotFound.message(), "no address available");
}

#[test]
fn empty_poll_never_reduces_a_populated_entry() {
    let mut cache = AddressCache::new();
    let ws = target("web");
    let first = vec![entry_record(Some("10.0.0.1"), Some(8080), Some(5))];
    assert!(commit_poll(&mut cache, &ws, &first, 0));
    let empty: Vec<ServiceEntry> = Vec::new();
    assert!(!commit_poll(&mut cache, &ws, &empty, 5));
    let e = cache.get("web", "").expect("prior entry kept");
    assert_eq!(e.index, 5);
    assert_eq!(e.address, vec![String::from("10.0.0.1:8080")]);
}

#[test]
fn stored_index_is_the_maximum_across_increasing_polls() {
    let mut cache = AddressCache::new();
    let ws = target("web");
    for idx in [5u64, 7, 9] {
        let entries = vec![entry_record(Some("10.0.0.1"), Some(8080), Some(idx))];
        let prev = cache.get("web", "").map(|e| e.index).unwrap_or(0);
        assert!(commit_poll(&mut cache, &ws, &entries, prev));
    }
    assert_eq!(cache.get("web", "").unwrap().index, 9);
}

#[test]
fn passing_only_target_scenario_builds_and_keeps_entry() {
    let mut ws = target("web");
    ws.passing_only = Some(true);
    let mut cache = AddressCache::new();
    let entries = vec![entry_record(Some("10.0.0.1"), Some(8080), Some(5))];
    assert!(commit_poll(&mut cache, &ws, &entries, 0));
    let e = cache.get("web", "").expect("entry stored");
    assert_eq!(e.index, 5);
    assert_eq!(e.address, vec![String::from("10.0.0.1:8080")]);

    // A later poll signalling no change: the same instance list at the
    // same index. The round completes and the entry's content is unchanged.
    assert!(commit_poll(&mut cache, &ws, &entries, 5));
    let e = cache.get("web", "").expect("entry kept");
    assert_eq!(e.index, 5);
    assert_eq!(e.address, vec![String::from("10.0.0.1:8080")]);
}

#[test]
fn build_entry_skips_records_without_address_or_port() {
    let entries = vec![
        entry_record(Some("10.0.0.1"), Some(8080), Some(5)),
        entry_record(None, Some(9090), Some(6)),
        entry_record(Some("10.0.0.2"), None, Some(7)),
        ServiceEntry::default(),
        entry_record(Some("10.0.0.3"), Some(7070), Some(4)),
    ];
    let sa = build_entry(&entries, 0);
    assert_eq!(
        sa.address,
        vec![String::from("10.0.0.1:8080"), String::from("10.0.0.3:7070")]
    );
    // Only usable records count toward the index: 5 and 4, not 6 or 7.
    assert_eq!(sa.index, 5);
}

#[test]
fn build_entry_keeps_previous_index_when_no_record_carries_one() {
    let entries = vec![entry_record(Some("10.0.0.1"), Some(8080), None)];
    let sa = build_entry(&entries, 42);
    assert_eq!(sa.index, 42);
    assert_eq!(sa.address, vec![String::from("10.0.0.1:8080")]);
}

#[test]
fn build_entry_takes_maximum_record_index() {
    let entries = vec![
        entry_record(Some("a"), Some(1), Some(7)),
        entry_record(Some("b"), Some(2), Some(5)),
    ];
    let sa = build_entry(&entries, 0);
    assert_eq!(sa.index, 7);
    assert_eq!(sa.address, vec![String::from("a:1"), String::from("b:2")]);
}
