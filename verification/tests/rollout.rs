//! Buckets and rollout decisions.

use std::collections::hash_map::DefaultHasher;
use std::hash::{Hash, Hasher};

use flag_kit::{
    bucket, bucket_with_org, evaluate_all, evaluate_enabled, evaluate_enabled_for, Flag,
    FlagName, MemoryFlagStore,
};

/// Reduces a hasher's digest to `0..100`, rejecting the 16 digests at or
/// above the largest multiple of 100 below `2^64` and rehashing with a `0`
/// byte, as the library does.
fn std_reduce(mut hasher: DefaultHasher) -> u8 {
    let mut digest = hasher.finish();
    while digest >= 18_446_744_073_709_551_600 {
        hasher.write(&[0u8]);
        digest = hasher.finish();
    }
    (digest % 100) as u8
}

fn std_bucket(flag_name: &str, user_id: &str) -> u8 {
    let mut hasher = DefaultHasher::new();
    flag_name.hash(&mut hasher);
    user_id.hash(&mut hasher);
    std_reduce(hasher)
}

fn std_bucket_with_org(flag_name: &str, user_id: &str, org_id: Option<&str>) -> u8 {
    let mut hasher = DefaultHasher::new();
    flag_name.hash(&mut hasher);
    user_id.hash(&mut hasher);
    if let Some(org) = org_id {
        org.hash(&mut hasher);
    }
    std_reduce(hasher)
}

fn store_with(name: &FlagName, enabled: bool, pct: u8) -> MemoryFlagStore {
    let mut store = MemoryFlagStore::new();
    store.set(Flag::new(name.clone(), enabled, pct).unwrap()).unwrap();
    store
}

fn enabled_for(store: &MemoryFlagStore, name: &FlagName, user: &str, org: Option<&str>) -> bool {
    evaluate_enabled_for(name, &store.get(name), user, org)
}

#[test]
fn bucket_range() {
    for (flag, user) in [("a", "1"), ("flag", "user"), ("x", "y")] {
        let b = bucket(flag, user);
        assert!(b < 100, "bucket must be <100, got {b}");
    }
}

#[test]
fn bucket_deterministic_and_sensitive() {
    let b1 = bucket("flag", "user1");
    let b2 = bucket("flag", "user1");
    assert_eq!(b1, b2);
    let mut buckets = std::collections::HashSet::new();
    for i in 0..20 {
        buckets.insert(bucket("flag", &format!("user{i}")));
    }
    assert!(
        buckets.len() > 1,
        "different users should produce different buckets"
    );
}

#[test]
fn bucket_equals_siphash_of_str_hash() {
    for (flag, user) in [
        ("a", "1"),
        ("flag", "user"),
        ("new_checkout", "user_123"),
        ("", ""),
        ("café", "ü"),
    ] {
        assert_eq!(bucket(flag, user), std_bucket(flag, user));
        assert_eq!(
            bucket_with_org(flag, user, None),
            std_bucket_with_org(flag, user, None)
        );
        assert_eq!(
            bucket_with_org(flag, user, Some("org_9")),
            std_bucket_with_org(flag, user, Some("org_9"))
        );
    }
    for i in 0..200 {
        let u = format!("user_{i}");
        assert_eq!(bucket("half_rollout", &u), std_bucket("half_rollout", &u));
    }
}

#[test]
fn bucket_with_org_none_is_bucket() {
    for i in 0..50 {
        let u = format!("u{i}");
        assert_eq!(bucket_with_org("f", &u, None), bucket("f", &u));
        assert!(bucket_with_org("f", &u, Some("acme")) < 100);
    }
}

#[test]
fn global_enabled_true() {
    let name = FlagName::new("feat_a").unwrap();
    let store = store_with(&name, true, 100);
    assert!(evaluate_enabled(&store.get(&name)));
}

#[test]
fn global_enabled_false_when_disabled() {
    let name = FlagName::new("feat_b").unwrap();
    let store = store_with(&name, false, 100);
    assert!(!evaluate_enabled(&store.get(&name)));
}

#[test]
fn global_enabled_false_when_not_found() {
    let store = MemoryFlagStore::new();
    let name = FlagName::new("missing").unwrap();
    assert!(!evaluate_enabled(&store.get(&name)));
}

#[test]
fn rollout_100_always_enabled() {
    let name = FlagName::new("rollout_full").unwrap();
    let store = store_with(&name, true, 100);
    for uid in ["alice", "bob", "charlie", "user_123"] {
        assert!(
            enabled_for(&store, &name, uid, None),
            "uid {uid} should be enabled"
        );
    }
}

#[test]
fn rollout_0_never_enabled() {
    let name = FlagName::new("rollout_none").unwrap();
    let store = store_with(&name, true, 0);
    for uid in ["alice", "bob"] {
        assert!(!enabled_for(&store, &name, uid, None));
    }
}

#[test]
fn rollout_disabled_flag_never_enabled() {
    let name = FlagName::new("disabled_rollout").unwrap();
    let store = store_with(&name, false, 100);
    assert!(!enabled_for(&store, &name, "alice", None));
}

#[test]
fn rollout_deterministic() {
    let name = FlagName::new("exp_flag").unwrap();
    let store = store_with(&name, true, 50);
    let user = "deterministic_user";
    let first = enabled_for(&store, &name, user, None);
    let second = enabled_for(&store, &name, user, None);
    assert_eq!(first, second, "rollout must be deterministic");
    let b1 = bucket(name.as_str(), user);
    let b2 = bucket(name.as_str(), user);
    assert_eq!(b1, b2);
    assert_eq!(first, b1 < 50);
}

#[test]
fn rollout_distribution_approx() {
    let name = FlagName::new("half_rollout").unwrap();
    let store = store_with(&name, true, 50);
    let mut enabled = 0;
    for i in 0..1000 {
        if enabled_for(&store, &name, &format!("user_{i}"), None) {
            enabled += 1;
        }
    }
    assert!(
        (350..=650).contains(&enabled),
        "expected ~500 enabled, got {enabled}"
    );
}

#[test]
fn org_id_does_not_break() {
    let name = FlagName::new("org_flag").unwrap();
    let store = store_with(&name, true, 50);
    let a = enabled_for(&store, &name, "alice", None);
    let b = enabled_for(&store, &name, "alice", Some("org1"));
    assert_eq!(a, b);
}

#[test]
fn rollout_monotone_in_percentage() {
    let name = FlagName::new("mono").unwrap();
    for i in 0..100 {
        let u = format!("m{i}");
        let mut was_in = false;
        for p in 0..=100u8 {
            let flag = Flag::new(name.clone(), true, p).unwrap();
            let now_in = evaluate_enabled_for(&name, &Some(flag), &u, None);
            assert!(!was_in || now_in, "user {u} left the rollout at {p}");
            was_in = now_in;
        }
        assert!(was_in);
    }
}

#[test]
fn evaluate_all_matches_single_checks() {
    let mut store = MemoryFlagStore::new();
    for (n, e, p) in [("a1", true, 30), ("b2", true, 70), ("c3", false, 90), ("d4", true, 100)] {
        store.set(Flag::new(FlagName::new(n).unwrap(), e, p).unwrap()).unwrap();
    }
    for i in 0..40 {
        let u = format!("bulk_{i}");
        let list = store.list();
        let names: Vec<FlagName> = list.iter().map(|f| f.name.clone()).collect();
        let results = evaluate_all(list, &u, Some("org"));
        assert_eq!(results.len(), 4);
        for (k, (n, on)) in results.iter().enumerate() {
            assert_eq!(n, &names[k]);
            assert_eq!(*on, enabled_for(&store, n, &u, None));
        }
    }
}

#[test]
fn unbiased_limit_is_whole_periods() {
    assert_eq!(flag_kit::eval::UNBIASED_LIMIT % 100, 0);
    assert_eq!(u64::MAX - flag_kit::eval::UNBIASED_LIMIT, 15);
}
