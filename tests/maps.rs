use deltoid::algebra::{DeltaError, DeltaOps};
use deltoid::collections::{EntryDelta, KeyedMap, MapDelta};
use deltoid::leaves::U64Delta;

fn map_of(pairs: &[(&str, u64)]) -> KeyedMap<String, u64> {
    let mut m: KeyedMap<String, u64> = KeyedMap::new();
    for (k, v) in pairs {
        m.insert(k.to_string(), *v);
    }
    m
}

fn entry<'a>(d: &'a MapDelta<String, u64>, k: &str) -> &'a EntryDelta<u64> {
    let found: Vec<&(String, EntryDelta<u64>)> = d.0.iter().filter(|(key, _)| key == k).collect();
    assert_eq!(found.len(), 1);
    &found[0].1
}

#[test]
fn map_keep_remove_insert() {
    let a = map_of(&[("x", 1), ("y", 2)]);
    let b = map_of(&[("x", 1), ("z", 3)]);
    let delta = a.delta(&b).unwrap();
    assert_eq!(delta.0.len(), 3);
    assert!(matches!(entry(&delta, "x"), EntryDelta::NoOp));
    assert!(matches!(entry(&delta, "y"), EntryDelta::Remove));
    assert!(matches!(entry(&delta, "z"), EntryDelta::Insert(3)));
    let patched = a.apply_delta(&delta).unwrap();
    assert_eq!(patched.get(&"x".to_string()), Some(&1));
    assert_eq!(patched.get(&"y".to_string()), None);
    assert_eq!(patched.get(&"z".to_string()), Some(&3));
    assert!(patched.same_value(&b));
}

#[test]
fn map_tombstone_deletes_key() {
    let a = map_of(&[("k", 7), ("keep", 1)]);
    let b = map_of(&[("keep", 1)]);
    let delta = a.delta(&b).unwrap();
    assert!(matches!(entry(&delta, "k"), EntryDelta::Remove));
    let patched = a.apply_delta(&delta).unwrap();
    assert!(!patched.contains_key(&"k".to_string()));
    assert!(patched.contains_key(&"keep".to_string()));
}

#[test]
fn map_modify_value() {
    let a = map_of(&[("n", 1)]);
    let b = map_of(&[("n", 2)]);
    let delta = a.delta(&b).unwrap();
    assert!(matches!(entry(&delta, "n"), EntryDelta::Modify(U64Delta(Some(2)))));
    assert_eq!(a.apply_delta(&delta).unwrap().get(&"n".to_string()), Some(&2));
    let back = a.inverse_delta(&b).unwrap();
    assert_eq!(b.apply_delta(&back).unwrap().get(&"n".to_string()), Some(&1));
}

#[test]
fn map_shadowed_pairs_count_once() {
    let mut a: KeyedMap<String, u64> = KeyedMap::new();
    a.insert("k".to_string(), 1);
    a.insert("k".to_string(), 2);
    assert_eq!(a.get(&"k".to_string()), Some(&2));
    let delta = a.delta(&a).unwrap();
    assert_eq!(delta.0.len(), 1);
    assert!(matches!(entry(&delta, "k"), EntryDelta::NoOp));
    a.remove(&"k".to_string());
    assert!(!a.contains_key(&"k".to_string()));
}

#[test]
fn map_modify_missing_key_is_error() {
    let a = map_of(&[("x", 1)]);
    let delta: MapDelta<String, u64> =
        MapDelta(vec![("y".to_string(), EntryDelta::Modify(U64Delta(Some(5))))]);
    assert!(matches!(a.apply_delta(&delta), Err(DeltaError::ExpectedValue)));
}

#[test]
fn map_empty_to_full() {
    let a: KeyedMap<String, u64> = KeyedMap::new();
    let b = map_of(&[("p", 4), ("q", 5)]);
    let delta = a.delta(&b).unwrap();
    let patched = a.apply_delta(&delta).unwrap();
    assert!(patched.same_value(&b));
    let shrink = b.delta(&a).unwrap();
    assert!(b.apply_delta(&shrink).unwrap().same_value(&a));
}
