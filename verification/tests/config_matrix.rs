//! Every public knob of a flag changes observable behavior.

use flag_kit::{bucket, evaluate_enabled, evaluate_enabled_for, Flag, FlagName, MemoryFlagStore};

#[test]
fn knob_enabled_false_vs_true_changes_global_eval() {
    let name = FlagName::new("matrix_enabled").unwrap();

    let mut store = MemoryFlagStore::new();
    store.set(Flag::new(name.clone(), false, 100).unwrap()).unwrap();
    let off = evaluate_enabled(&store.get(&name));

    let mut store = MemoryFlagStore::new();
    store.set(Flag::new(name.clone(), true, 100).unwrap()).unwrap();
    let on = evaluate_enabled(&store.get(&name));

    assert!(!off);
    assert!(on, "setting `enabled` must flip global evaluation");
}

#[test]
fn knob_percentage_zero_vs_100_changes_rollout() {
    let name = FlagName::new("matrix_percentage").unwrap();
    let uid = "matrix_user";

    let mut store = MemoryFlagStore::new();
    store.set(Flag::new(name.clone(), true, 0).unwrap()).unwrap();
    let none = evaluate_enabled_for(&name, &store.get(&name), uid, None);

    let mut store = MemoryFlagStore::new();
    store.set(Flag::new(name.clone(), true, 100).unwrap()).unwrap();
    let all = evaluate_enabled_for(&name, &store.get(&name), uid, None);

    assert!(!none);
    assert!(all, "percentage 0 vs 100 must change rollout outcome");
}

#[test]
fn knob_percentage_partial_matches_bucket_predicate() {
    let name = FlagName::new("matrix_partial").unwrap();
    let mut store = MemoryFlagStore::new();
    store.set(Flag::new(name.clone(), true, 30).unwrap()).unwrap();
    for i in 0..500 {
        let uid = format!("user_{i}");
        let expected = bucket(name.as_str(), &uid) < 30;
        let actual = evaluate_enabled_for(&name, &store.get(&name), &uid, None);
        assert_eq!(actual, expected, "percentage must gate the bucket check");
    }
}

#[test]
fn knob_set_percentage_changes_eval_result() {
    let name = FlagName::new("matrix_set_pct").unwrap();
    let uid = "set_pct_user";
    let b = bucket(name.as_str(), uid);

    let mut flag = Flag::new(name.clone(), true, 0).unwrap();
    assert_eq!(flag.percentage, 0);

    flag.set_percentage(b + 1).unwrap();
    assert_eq!(flag.percentage, b + 1);
    assert!(b < flag.percentage);

    flag.set_percentage(b).unwrap();
    assert!(b >= flag.percentage);
}

#[test]
fn knob_set_percentage_rejects_out_of_range() {
    let mut flag = Flag::new(FlagName::new("matrix_set_pct_range").unwrap(), true, 50).unwrap();
    assert!(flag.set_percentage(101).is_err());
    assert!(flag.set_percentage(255).is_err());
    assert_eq!(flag.percentage, 50);
    flag.set_percentage(100).unwrap();
    assert_eq!(flag.percentage, 100);
}

#[test]
fn config_matrix_knob_with_created_at_default_none_vs_set_some() {
    let name = FlagName::new("matrix_created").unwrap();

    let plain = Flag::new(name.clone(), true, 50).unwrap();
    assert_eq!(
        plain.created_at, None,
        "default must leave created_at unset"
    );

    let stamped = Flag::with_created_at(name, true, 50, 1_700_000_000).unwrap();
    assert_eq!(
        stamped.created_at,
        Some(1_700_000_000),
        "with_created_at must make the timestamp observable"
    );
}

#[test]
fn knob_org_id_is_documented_inert() {
    let name = FlagName::new("matrix_org").unwrap();
    let mut store = MemoryFlagStore::new();
    store.set(Flag::new(name.clone(), true, 50).unwrap()).unwrap();

    let without = evaluate_enabled_for(&name, &store.get(&name), "org_user", None);
    let with = evaluate_enabled_for(&name, &store.get(&name), "org_user", Some("org_42"));
    assert_eq!(without, with);
}
