use agent_runtime::budget::cost::{CostCache, CostKey};
use agent_runtime::budget::ladder::{classify_tier, ModelTier};
use agent_runtime::budget::threshold::{BudgetThreshold, FiredThresholds, ThresholdLevels};

#[test]
fn empty_cache_returns_none() {
    let mut c = CostCache::new(4);
    assert_eq!(c.get(&CostKey::from_raw(7)), None);
    assert!(c.is_empty());
    assert_eq!(c.len(), 0);
}

#[test]
fn insert_then_get_returns_value() {
    let mut c = CostCache::new(4);
    let key = CostKey::from_raw(99);
    c.insert(key, 42);
    assert_eq!(c.get(&key), Some(42));
    assert_eq!(c.len(), 1);
}

#[test]
fn lru_evicts_oldest_when_over_capacity() {
    let mut c = CostCache::new(2);
    let k1 = CostKey::from_raw(1);
    let k2 = CostKey::from_raw(2);
    let k3 = CostKey::from_raw(3);
    c.insert(k1, 1);
    c.insert(k2, 2);
    c.insert(k3, 3);
    assert_eq!(c.get(&k1), None);
    assert_eq!(c.get(&k2), Some(2));
    assert_eq!(c.get(&k3), Some(3));
}

#[test]
fn get_bumps_to_most_recent() {
    let mut c = CostCache::new(2);
    let k1 = CostKey::from_raw(1);
    let k2 = CostKey::from_raw(2);
    let k3 = CostKey::from_raw(3);
    c.insert(k1, 1);
    c.insert(k2, 2);
    let _ = c.get(&k1);
    c.insert(k3, 3);
    assert_eq!(c.get(&k1), Some(1));
    assert_eq!(c.get(&k2), None);
    assert_eq!(c.get(&k3), Some(3));
}

#[test]
fn capacity_zero_disables_caching() {
    let mut c = CostCache::new(0);
    let k = CostKey::from_raw(1);
    c.insert(k, 42);
    assert_eq!(c.get(&k), None);
    assert!(c.is_empty());
}

#[test]
fn update_existing_does_not_evict() {
    let mut c = CostCache::new(2);
    let k1 = CostKey::from_raw(1);
    let k2 = CostKey::from_raw(2);
    c.insert(k1, 1);
    c.insert(k2, 2);
    c.insert(k1, 11);
    assert_eq!(c.get(&k1), Some(11));
    assert_eq!(c.get(&k2), Some(2));
    assert_eq!(c.len(), 2);
}

#[test]
fn update_bumps_to_most_recent() {
    let mut c = CostCache::new(2);
    let k1 = CostKey::from_raw(1);
    let k2 = CostKey::from_raw(2);
    let k3 = CostKey::from_raw(3);
    c.insert(k1, 1);
    c.insert(k2, 2);
    c.insert(k1, 11);
    c.insert(k3, 3);
    assert_eq!(c.get(&k1), Some(11));
    assert_eq!(c.get(&k2), None);
    assert_eq!(c.get(&k3), Some(3));
}

#[test]
fn order_snapshot_reflects_insert_order() {
    let mut c = CostCache::new(3);
    let k1 = CostKey::from_raw(1);
    let k2 = CostKey::from_raw(2);
    c.insert(k1, 1);
    c.insert(k2, 2);
    assert_eq!(c.order_snapshot(), vec![k1, k2]);
}

#[test]
fn default_constructs_with_reasonable_capacity() {
    let c = CostCache::default();
    assert!(c.capacity() > 0);
}

#[test]
fn cache_never_exceeds_capacity() {
    let mut c = CostCache::new(3);
    for i in 0..10u64 {
        c.insert(CostKey::from_raw(i), i);
        assert!(c.len() <= 3);
    }
    assert_eq!(
        c.order_snapshot(),
        vec![CostKey::from_raw(7), CostKey::from_raw(8), CostKey::from_raw(9)]
    );
}

#[test]
fn classify_tier_reads_the_family_name() {
    assert_eq!(classify_tier("model-opus-4-7"), ModelTier::Opus);
    assert_eq!(classify_tier("Model-SONNET-4-6"), ModelTier::Sonnet);
    assert_eq!(classify_tier("model-haiku-4-5"), ModelTier::Haiku);
    assert_eq!(classify_tier("gpt-4o"), ModelTier::Unknown);
}

#[test]
fn threshold_levels_default_to_documented_percentages() {
    let l = ThresholdLevels::new(None, None, None, None);
    assert_eq!((l.warn_at, l.downshift_at, l.suspend_at, l.hard_stop_at), (50, 75, 90, 100));
    let l = ThresholdLevels::new(Some(10), None, Some(95), None);
    assert_eq!((l.warn_at, l.downshift_at, l.suspend_at, l.hard_stop_at), (10, 75, 95, 100));
}

#[test]
fn thresholds_fire_in_order_and_only_once() {
    let levels = ThresholdLevels::new(None, None, None, None);
    let mut fired = FiredThresholds::new();
    assert_eq!(fired.record_crossing(&levels, 49, 500), vec![]);
    assert_eq!(fired.record_crossing(&levels, 80, 500), vec![
        BudgetThreshold::Warn,
        BudgetThreshold::Downshift
    ]);
    assert_eq!(fired.record_crossing(&levels, 80, 500), vec![]);
    assert_eq!(fired.record_crossing(&levels, 120, 500), vec![
        BudgetThreshold::Suspend,
        BudgetThreshold::HardStop
    ]);
    assert_eq!(fired.fired_count(), 4);
    // A different cap fires afresh.
    assert_eq!(fired.record_crossing(&levels, 60, 900), vec![BudgetThreshold::Warn]);
    assert_eq!(fired.fired_count(), 5);
    fired.reset();
    assert_eq!(fired.fired_count(), 0);
    assert_eq!(fired.record_crossing(&levels, 60, 500), vec![BudgetThreshold::Warn]);
}
