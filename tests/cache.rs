use t9s::cache::{PersistentCache, PersistentCacheEntry};
use t9s::teamcity::types::BuildType;
use t9s::teamcity::{cache_key, cached_configurations, remember_configurations, DEFAULT_TTL_SECONDS};

fn bt(id: &str, name: &str) -> BuildType {
    BuildType {
        id: id.to_string(),
        name: name.to_string(),
        description: None,
        project_name: None,
        project_id: None,
        href: None,
        web_url: None,
        kind: None,
    }
}

#[test]
fn entry_expires_strictly_after_its_lifetime() {
    let e = PersistentCacheEntry::new_at(1u8, 10, 100);
    assert_eq!(e.timestamp, 100);
    assert_eq!(e.ttl_seconds, 10);
    assert!(!e.is_expired_at(0));
    assert!(!e.is_expired_at(100));
    assert!(!e.is_expired_at(110));
    assert!(e.is_expired_at(111));
    assert!(e.is_expired_at(u64::MAX));
}

#[test]
fn zero_ttl_entry_is_expired_one_second_later() {
    let e = PersistentCacheEntry::new_at("x", 0, 500);
    assert!(!e.is_expired_at(500));
    assert!(e.is_expired_at(501));
}

#[test]
fn entry_near_the_end_of_time_does_not_overflow() {
    let e = PersistentCacheEntry::new_at((), u64::MAX, u64::MAX);
    assert!(!e.is_expired_at(u64::MAX));
}

#[test]
fn entry_stamped_now_is_fresh_for_an_hour() {
    let e = PersistentCacheEntry::new(vec![1, 2], 3600);
    assert_eq!(e.data, vec![1, 2]);
    assert!(!e.is_expired());
    let old = PersistentCacheEntry::new_at((), 0, 1);
    assert!(old.is_expired());
}

#[test]
fn insert_get_and_remove() {
    let mut c = PersistentCache::new();
    let k = "project_a".to_string();
    assert!(c.get(&k).is_none());
    c.insert(k.clone(), PersistentCacheEntry::new_at(vec![bt("a1", "A1")], 60, 10));
    c.insert(k.clone(), PersistentCacheEntry::new_at(vec![bt("a2", "A2")], 60, 20));
    let e = c.get(&k).unwrap();
    assert_eq!(e.data[0].id, "a2");
    assert_eq!(e.timestamp, 20);
    assert_eq!(c.into_entries().len(), 1);
    let mut c = PersistentCache::new();
    c.insert(k.clone(), PersistentCacheEntry::new_at(vec![], 60, 20));
    c.remove(&k);
    assert!(c.get(&k).is_none());
}

#[test]
fn get_fresh_skips_expired_entries() {
    let mut c = PersistentCache::new();
    let k = "project_a".to_string();
    c.insert(k.clone(), PersistentCacheEntry::new_at(vec![bt("a1", "A1")], 10, 100));
    assert!(c.get_fresh(&k, 110).is_some());
    assert!(c.get_fresh(&k, 111).is_none());
    assert!(c.get(&k).is_some());
}

#[test]
fn loading_drops_expired_entries_and_keeps_the_last_duplicate() {
    let entries = vec![
        ("project_a".to_string(), PersistentCacheEntry::new_at(vec![bt("a", "A")], 10, 100)),
        ("project_b".to_string(), PersistentCacheEntry::new_at(vec![bt("b", "B")], 1000, 100)),
        ("project_c".to_string(), PersistentCacheEntry::new_at(vec![bt("c1", "C")], 1000, 100)),
        ("project_c".to_string(), PersistentCacheEntry::new_at(vec![bt("c2", "C")], 1000, 150)),
    ];
    let c = PersistentCache::from_entries(entries, 200);
    assert!(c.get(&"project_a".to_string()).is_none());
    assert_eq!(c.get(&"project_b".to_string()).unwrap().data[0].id, "b");
    assert_eq!(c.get(&"project_c".to_string()).unwrap().data[0].id, "c2");
    assert_eq!(c.into_entries().len(), 2);
}

#[test]
fn cache_keys_are_namespaced_per_project() {
    assert_eq!(cache_key("Core"), "project_Core");
    assert_eq!(cache_key(""), "project_");
    assert_ne!(cache_key("a"), cache_key("b"));
}

#[test]
fn fetching_one_project_leaves_another_alone() {
    let mut c = PersistentCache::new();
    remember_configurations(&mut c, "B", vec![bt("b1", "B one")], 1000);
    let before = cached_configurations(&c, "B", 1500).cloned();
    assert!(cached_configurations(&c, "A", 1500).is_none());
    remember_configurations(&mut c, "A", vec![bt("a1", "A one")], 1200);
    assert_eq!(cached_configurations(&c, "B", 1500).cloned(), before);
    assert_eq!(cached_configurations(&c, "A", 1500).unwrap()[0].id, "a1");
    assert_eq!(cached_configurations(&c, "B", 1500).unwrap()[0].id, "b1");
}

#[test]
fn configurations_are_served_from_cache_within_the_ttl() {
    let mut c = PersistentCache::new();
    assert!(cached_configurations(&c, "auth", 0).is_none());
    remember_configurations(&mut c, "auth", vec![bt("auth_build", "Auth")], 1000);
    let e = c.get(&"project_auth".to_string()).unwrap();
    assert_eq!(e.ttl_seconds, DEFAULT_TTL_SECONDS);
    assert_eq!(DEFAULT_TTL_SECONDS, 3600);
    assert_eq!(cached_configurations(&c, "auth", 1000 + 3600).unwrap()[0].id, "auth_build");
    assert!(cached_configurations(&c, "auth", 1000 + 3601).is_none());
}
