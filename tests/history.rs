use deltoid::algebra::DeltaError;
use deltoid::leaves::U64Delta;
use deltoid::snapshot::clock::Timestamp;
use deltoid::snapshot::delta::{DeltaSnapshot, DeltaSnapshots};
use deltoid::snapshot::full::{FullSnapshot, FullSnapshots};

#[test]
fn compact_then_expand_three_snapshots() {
    let mut full: FullSnapshots<Vec<u64>> = FullSnapshots::new();
    full.push_snapshot("a".to_string(), vec![1]).unwrap();
    full.push_snapshot("b".to_string(), vec![1, 2]).unwrap();
    full.push_snapshot("c".to_string(), vec![3]).unwrap();
    let before: Vec<(Timestamp, String, Vec<u64>)> = full
        .0
        .iter()
        .map(|s| (s.timestamp, s.origin.clone(), s.state.clone()))
        .collect();
    let compacted = full.to_delta_snapshots().unwrap();
    assert_eq!(compacted.len(), 3);
    assert_eq!(compacted.current().state, vec![3]);
    assert_eq!(compacted.current().origin, "c");
    let expanded = compacted.to_full_snapshots().unwrap();
    let after: Vec<(Timestamp, String, Vec<u64>)> = expanded
        .0
        .iter()
        .map(|s| (s.timestamp, s.origin.clone(), s.state.clone()))
        .collect();
    assert_eq!(before, after);
}

#[test]
fn compact_empty_history() {
    let full: FullSnapshots<u64> = FullSnapshots::default();
    assert!(full.is_empty());
    let compacted = full.to_delta_snapshots().unwrap();
    assert!(compacted.is_empty());
    assert_eq!(compacted.current().origin, "default");
    assert_eq!(compacted.current().state, 0);
    let expanded = compacted.to_full_snapshots().unwrap();
    assert_eq!(expanded.len(), 0);
}

#[test]
fn push_keeps_current() {
    let mut history: DeltaSnapshots<Vec<u64>> = DeltaSnapshots::new();
    let t = Timestamp { secs: 100, nanos: 5 };
    history.push_snapshot_at(t, "x".to_string(), vec![1, 2]).unwrap();
    history.push_snapshot("y".to_string(), vec![1]).unwrap();
    assert_eq!(history.len(), 2);
    assert_eq!(history.current().state, vec![1]);
    assert_eq!(history.current().origin, "y");
    assert_eq!(history.snapshots[0].timestamp, t);
    assert_eq!(history.snapshots[1].delta.truncate_to, Some(1));
    let expanded = history.to_full_snapshots().unwrap();
    assert_eq!(expanded.0[0].state, vec![1, 2]);
    assert_eq!(expanded.0[1].state, vec![1]);
}

#[test]
fn expand_bad_delta_fails() {
    let mut history: DeltaSnapshots<u64> = DeltaSnapshots::new();
    history.add_snapshot(DeltaSnapshot::new("a".to_string(), U64Delta(Some(1))));
    history.add_snapshot(DeltaSnapshot::new("b".to_string(), U64Delta(None)));
    assert!(matches!(history.to_full_snapshots(), Err(DeltaError::ExpectedValue)));
}

#[test]
fn clear_and_take() {
    let mut history: DeltaSnapshots<u64> = DeltaSnapshots::default();
    history.push_snapshot("a".to_string(), 4).unwrap();
    history.update_current("z".to_string(), &9);
    assert_eq!(history.current().origin, "z");
    assert_eq!(history.current().state, 9);
    let taken = history.take_snapshots();
    assert_eq!(taken.len(), 1);
    assert!(history.is_empty());
    history.push_snapshot("b".to_string(), 5).unwrap();
    history.clear();
    assert!(history.is_empty());
    assert_eq!(history.current().state, 0);
    assert_eq!(history.current().origin, "default");
}

#[test]
fn full_history_access() {
    let mut full: FullSnapshots<u64> = FullSnapshots::new();
    full.add_snapshot(FullSnapshot::new("a".to_string(), 1));
    full.push_snapshot("b".to_string(), 2).unwrap();
    assert_eq!(full.len(), 2);
    assert_eq!(full.snapshot_ref(1).unwrap().state, 2);
    assert!(matches!(full.snapshot_ref(2), Err(DeltaError::ExpectedValue)));
    full.clear();
    assert!(full.is_empty());
    let d: FullSnapshot<u64> = FullSnapshot::default();
    assert_eq!(d.origin, "default");
}

#[test]
fn snapshots_compare_by_time_and_origin_only() {
    let t1 = Timestamp { secs: 10, nanos: 0 };
    let t2 = Timestamp { secs: 10, nanos: 1 };
    let a = FullSnapshot { timestamp: t1, origin: "a".to_string(), state: 1u64 };
    let a_other_state = FullSnapshot { timestamp: t1, origin: "a".to_string(), state: 99u64 };
    let b = FullSnapshot { timestamp: t1, origin: "b".to_string(), state: 1u64 };
    let later = FullSnapshot { timestamp: t2, origin: "a".to_string(), state: 1u64 };
    assert!(a == a_other_state);
    assert!(a != b);
    assert!(a < b);
    assert!(b < later);
    assert_eq!(a.partial_cmp(&a_other_state), Some(std::cmp::Ordering::Equal));
    assert_eq!(later.partial_cmp(&a), Some(std::cmp::Ordering::Greater));
    let prefix = FullSnapshot { timestamp: t1, origin: "ab".to_string(), state: 0u64 };
    assert!(a < prefix);
}

#[test]
fn delta_snapshots_compare_by_time_and_origin_only() {
    let t = Timestamp { secs: -5, nanos: 7 };
    let x: DeltaSnapshot<u64> = DeltaSnapshot { timestamp: t, origin: "o".to_string(), delta: U64Delta(Some(1)) };
    let y: DeltaSnapshot<u64> = DeltaSnapshot { timestamp: t, origin: "o".to_string(), delta: U64Delta(None) };
    let z: DeltaSnapshot<u64> = DeltaSnapshot { timestamp: Timestamp { secs: -4, nanos: 0 }, origin: "a".to_string(), delta: U64Delta(None) };
    assert!(x == y);
    assert!(x < z);
}
