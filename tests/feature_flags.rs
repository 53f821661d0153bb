use stdin_bootstrap::features::{FeatureFlag, collect_unstable_features};

fn registry() -> Vec<FeatureFlag> {
    vec![
        FeatureFlag { name: "broadcast-channel".to_string(), id: 1 },
        FeatureFlag { name: "cron".to_string(), id: 2 },
        FeatureFlag { name: "kv".to_string(), id: 3 },
        FeatureFlag { name: "net".to_string(), id: 4 },
    ]
}

#[test]
fn approved_entries_in_registry_order() {
    let reg = registry();
    let got = collect_unstable_features(&reg, &vec![false, true, false, true]);
    assert_eq!(got, vec![2, 4]);
}

#[test]
fn all_or_none_approved() {
    let reg = registry();
    assert_eq!(collect_unstable_features(&reg, &vec![true; 4]), vec![1, 2, 3, 4]);
    assert_eq!(collect_unstable_features(&reg, &vec![false; 4]), Vec::<i32>::new());
}

#[test]
fn empty_registry_gives_empty_list() {
    assert_eq!(collect_unstable_features(&vec![], &vec![]), Vec::<i32>::new());
}

#[test]
fn repeated_collection_is_identical_and_a_subset() {
    let reg = registry();
    let approved = vec![true, false, true, true];
    let a = collect_unstable_features(&reg, &approved);
    let b = collect_unstable_features(&reg, &approved);
    assert_eq!(a, b);
    assert!(a.len() <= reg.len());
    assert!(a.iter().all(|id| reg.iter().any(|f| f.id == *id)));
}
