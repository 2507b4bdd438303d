use pp_recalc::cache::Cache;

#[test]
fn set_then_get_within_ttl_returns_value() {
    let mut c = Cache::new(60);
    c.set("k", "v".to_string(), 100);
    assert_eq!(c.get("k", 100), Some("v".to_string()));
    assert_eq!(c.get("k", 159), Some("v".to_string()));
}

#[test]
fn get_after_ttl_returns_absent() {
    let mut c = Cache::new(60);
    c.set("k", "v".to_string(), 100);
    assert_eq!(c.get("k", 160), None);
    assert_eq!(c.get("k", 1000), None);
}

#[test]
fn get_does_not_evict() {
    let mut c = Cache::new(60);
    c.set("k", "v".to_string(), 0);
    // observed as absent once expired ...
    assert_eq!(c.get("k", 100), None);
    // ... but the entry was not removed: an earlier reading still sees it
    assert_eq!(c.get("k", 10), Some("v".to_string()));
}

#[test]
fn missing_key_is_absent() {
    let c = Cache::new(60);
    assert_eq!(c.get("nothing", 5), None);
}

#[test]
fn set_overwrites() {
    let mut c = Cache::new(60);
    c.set("k", "first".to_string(), 0);
    c.set("k", "second".to_string(), 10);
    assert_eq!(c.get("k", 20), Some("second".to_string()));
}

#[test]
fn set_sweeps_expired_entries() {
    let mut c = Cache::new(60);
    c.set("a", "1".to_string(), 0);
    c.set("b", "2".to_string(), 30);
    // both alive at 30
    assert_eq!(c.get("a", 30), Some("1".to_string()));
    // writing at 70 sweeps `a` (age 70) and keeps `b` (age 40)
    c.set("c", "3".to_string(), 70);
    assert_eq!(c.get("b", 70), Some("2".to_string()));
    assert_eq!(c.get("a", 70), None);
    // `a` is gone for good: even an old reading no longer sees it
    assert_eq!(c.get("a", 10), None);
}

#[test]
fn zero_ttl_keeps_nothing() {
    let mut c = Cache::new(0);
    c.set("k", "v".to_string(), 5);
    assert_eq!(c.get("k", 5), None);
    assert_eq!(c.get("k", 4), None);
}

#[test]
fn distinct_keys_are_independent() {
    let mut c = Cache::new(100);
    c.set("x", "1".to_string(), 0);
    c.set("y", "2".to_string(), 1);
    assert_eq!(c.get("x", 2), Some("1".to_string()));
    assert_eq!(c.get("y", 2), Some("2".to_string()));
    assert_eq!(c.get("z", 2), None);
}
