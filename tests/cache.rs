use num_complex::Complex64;
use quantum_os::cache::GateMatrixCache;
use quantum_os::execution::GateCacheKey;

#[test]
fn test_gate_cache() {
    let mut cache = GateMatrixCache::new(10);
    let key = GateCacheKey::new("hadamard", None);

    let matrix = vec![vec![Complex64::new(1.0, 0.0)]];
    cache.insert(key.clone(), matrix);

    assert!(cache.get(&key).is_some());
    assert_eq!(cache.len(), 1);
}

#[test]
fn full_cache_evicts_the_oldest_key() {
    let mut cache: GateMatrixCache<u8> = GateMatrixCache::new(2);
    let a = GateCacheKey::new("rx", Some(1));
    let b = GateCacheKey::new("rx", Some(2));
    let c = GateCacheKey::new("ry", Some(1));
    cache.insert(a.clone(), 1);
    cache.insert(b.clone(), 2);
    cache.insert(a.clone(), 3);
    assert_eq!(cache.len(), 2);
    assert_eq!(cache.get(&a), Some(3));
    cache.insert(c.clone(), 4);
    assert_eq!(cache.len(), 2);
    assert_eq!(cache.get(&a), None);
    assert_eq!(cache.get(&b), Some(2));
    assert_eq!(cache.get(&c), Some(4));
    cache.clear();
    assert!(cache.is_empty());
}

#[test]
fn zero_capacity_cache_stores_nothing() {
    let mut cache: GateMatrixCache<u8> = GateMatrixCache::new(0);
    cache.insert(GateCacheKey::new("h", None), 1);
    assert_eq!(cache.len(), 0);
}
