use cmdai::cache::{CacheManifest, CachedModel, GIB};

fn model(id: &str, size: u64, accessed: i64) -> CachedModel {
    CachedModel {
        model_id: id.to_string(),
        path: format!("/tmp/models/{}", id),
        checksum: "a".repeat(64),
        size_bytes: size,
        downloaded_at: 0,
        last_accessed: accessed,
        version: None,
    }
}

#[test]
fn new_manifest_is_empty() {
    let m = CacheManifest::new(10, 1_700_000_000);
    assert_eq!(m.version, "1.0.0");
    assert!(m.models.is_empty());
    assert_eq!(m.total_size_bytes, 0);
    assert_eq!(m.max_cache_size_bytes, 10 * GIB);
    assert_eq!(m.last_updated, 1_700_000_000);
}

#[test]
fn add_get_remove() {
    let mut m = CacheManifest::new(1, 1_700_000_000);
    m.add_model(model("a", 100, 5), 1_700_000_100);
    m.add_model(model("b", 50, 7), 1_700_000_100);
    assert_eq!(m.total_size_bytes, 150);
    assert_eq!(m.get_model("b").unwrap().size_bytes, 50);
    assert!(m.get_model("c").is_none());
    m.add_model(model("a", 10, 9), 1_700_000_100);
    assert_eq!(m.models.len(), 2);
    assert_eq!(m.get_model("a").unwrap().size_bytes, 10);
    assert_eq!(m.total_size_bytes, 160);
    let removed = m.remove_model("b", 1_700_000_200).unwrap();
    assert_eq!(removed.model_id, "b");
    assert_eq!(m.last_updated, 1_700_000_200);
    assert_eq!(m.total_size_bytes, 110);
    assert!(m.remove_model("b", 1_700_000_200).is_none());
    m.total_size_bytes = 3;
    m.remove_model("a", 1_700_000_200);
    assert_eq!(m.total_size_bytes, 0);
}

#[test]
fn cleanup_evicts_least_recently_used_first() {
    let mut m = CacheManifest::new(0, 1_700_000_000);
    m.max_cache_size_bytes = 100;
    m.add_model(model("old", 60, 1), 1_700_000_100);
    m.add_model(model("mid", 60, 5), 1_700_000_100);
    m.add_model(model("new", 60, 9), 1_700_000_100);
    let removed = m.cleanup_lru(1_700_000_300);
    assert_eq!(removed, vec!["old".to_string(), "mid".to_string()]);
    assert_eq!(m.models.len(), 1);
    assert_eq!(m.models[0].model_id, "new");
    assert_eq!(m.total_size_bytes, 60);
    assert!(m.cleanup_lru(1_700_000_300).is_empty());
}

#[test]
fn recalculate_sums_sizes() {
    let mut m = CacheManifest::new(1, 1_700_000_000);
    m.add_model(model("a", 100, 5), 1_700_000_100);
    m.add_model(model("b", 23, 7), 1_700_000_100);
    m.total_size_bytes = 0;
    m.recalculate_total_size();
    assert_eq!(m.total_size_bytes, 123);
}

#[test]
fn cached_model_metadata_checks() {
    let ok = model("m", 1, 0);
    assert!(ok.validate().is_ok());
    let mut no_id = model("", 1, 0);
    assert_eq!(no_id.validate(), Err("Model ID cannot be empty".to_string()));
    no_id.model_id = "x".to_string();
    no_id.checksum = "abc".to_string();
    assert_eq!(no_id.validate(), Err("Checksum must be 64 characters (SHA256 hex), got 3".to_string()));
    no_id.checksum = "g".repeat(64);
    assert_eq!(no_id.validate(), Err("Checksum must be valid hexadecimal".to_string()));
    no_id.checksum = "0123456789abcdefABCDEF".to_string() + &"0".repeat(42);
    assert!(no_id.validate().is_ok());
}
