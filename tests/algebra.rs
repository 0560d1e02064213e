use deltoid::algebra::{DeltaError, DeltaOps, FromDelta, IntoDelta};
use deltoid::leaves::{BoolDelta, CharDelta, I32Delta, U64Delta, UnitDelta};
use deltoid::option::OptionDelta;
use deltoid::rc::RcDelta;
use deltoid::tuple::Tuple2Delta;
use deltoid::vec::{EltDelta, VecDelta};
use std::rc::Rc;
use std::sync::Arc;

#[test]
fn scalar_full_replace() {
    let a: i32 = 5;
    let b: i32 = 9;
    let delta = a.delta(&b).unwrap();
    assert_eq!(delta, I32Delta(Some(9)));
    assert_eq!(a.apply_delta(&delta).unwrap(), 9);
}

#[test]
fn scalar_identity_is_replacement() {
    let a: u64 = 42;
    let delta = a.delta(&a).unwrap();
    assert_eq!(delta, U64Delta(Some(42)));
    assert_eq!(a.apply_delta(&delta).unwrap(), 42);
}

#[test]
fn scalar_empty_slot_is_error() {
    let a: u64 = 3;
    assert_eq!(a.apply_delta(&U64Delta(None)), Err(DeltaError::ExpectedValue));
    assert_eq!(<u64 as FromDelta>::from_delta(U64Delta(None)), Err(DeltaError::ExpectedValue));
    assert_eq!(<u64 as FromDelta>::from_delta(U64Delta(Some(8))), Ok(8));
}

#[test]
fn other_leaves() {
    assert_eq!(true.delta(&false).unwrap(), BoolDelta(Some(false)));
    assert_eq!('a'.apply_delta(&CharDelta(Some('z'))).unwrap(), 'z');
    assert_eq!(().delta(&()).unwrap(), UnitDelta(Some(())));
    assert_eq!(7u64.into_delta().unwrap(), U64Delta(Some(7)));
}

#[test]
fn scalar_inverse() {
    let a: u64 = 5;
    let b: u64 = 9;
    let inv = a.inverse_delta(&b).unwrap();
    assert_eq!(inv, U64Delta(Some(5)));
    assert_eq!(b.apply_delta(&inv).unwrap(), 5);
}

#[test]
fn vec_change_and_append() {
    let a: Vec<i32> = vec![1, 2, 3];
    let b: Vec<i32> = vec![1, 5, 3, 7];
    let delta = a.delta(&b).unwrap();
    assert_eq!(delta.changes.len(), 3);
    assert!(matches!(delta.changes[0], EltDelta::Unchanged));
    assert!(matches!(delta.changes[1], EltDelta::Changed(I32Delta(Some(5)))));
    assert!(matches!(delta.changes[2], EltDelta::Unchanged));
    assert_eq!(delta.truncate_to, None);
    assert_eq!(delta.appended, vec![7]);
    assert_eq!(a.apply_delta(&delta).unwrap(), vec![1, 5, 3, 7]);
}

#[test]
fn vec_shrink() {
    let a: Vec<u64> = vec![4, 5, 6, 7];
    let b: Vec<u64> = vec![4, 9];
    let delta = a.delta(&b).unwrap();
    assert_eq!(delta.truncate_to, Some(2));
    assert!(delta.appended.is_empty());
    assert_eq!(a.apply_delta(&delta).unwrap(), b);
}

#[test]
fn vec_empty_to_full_and_back() {
    let empty: Vec<u64> = vec![];
    let full: Vec<u64> = vec![1, 2, 3];
    let grow = empty.delta(&full).unwrap();
    assert!(grow.changes.is_empty());
    assert_eq!(grow.appended, vec![1, 2, 3]);
    assert_eq!(empty.apply_delta(&grow).unwrap(), full);
    let shrink = full.delta(&empty).unwrap();
    assert_eq!(shrink.truncate_to, Some(0));
    assert_eq!(full.apply_delta(&shrink).unwrap(), empty);
}

#[test]
fn vec_identity_is_all_unchanged() {
    let a: Vec<u64> = vec![10, 20, 30, 40, 50];
    let delta = a.delta(&a).unwrap();
    assert_eq!(delta.changes.len(), 5);
    assert!(delta.changes.iter().all(|e| matches!(e, EltDelta::Unchanged)));
    assert_eq!(delta.truncate_to, None);
    assert!(delta.appended.is_empty());
    assert_eq!(a.apply_delta(&delta).unwrap(), a);
}

#[test]
fn vec_elision_of_large_unchanged_element() {
    let big: Vec<u64> = (0..1000).collect();
    let a: Vec<Vec<u64>> = vec![big.clone(), vec![1]];
    let b: Vec<Vec<u64>> = vec![big.clone(), vec![2]];
    let delta = a.delta(&b).unwrap();
    assert!(matches!(delta.changes[0], EltDelta::Unchanged));
    assert!(matches!(delta.changes[1], EltDelta::Changed(_)));
    assert_eq!(a.apply_delta(&delta).unwrap(), b);
}

#[test]
fn vec_too_many_changes_is_error() {
    let a: Vec<u64> = vec![1];
    let delta: VecDelta<u64> = VecDelta {
        changes: vec![EltDelta::Unchanged, EltDelta::Unchanged],
        truncate_to: None,
        appended: vec![],
    };
    assert_eq!(a.apply_delta(&delta), Err(DeltaError::ExpectedValue));
}

#[test]
fn vec_bad_child_delta_is_error() {
    let a: Vec<u64> = vec![1, 2];
    let delta: VecDelta<u64> = VecDelta {
        changes: vec![EltDelta::Unchanged, EltDelta::Changed(U64Delta(None))],
        truncate_to: None,
        appended: vec![],
    };
    assert_eq!(a.apply_delta(&delta), Err(DeltaError::ExpectedValue));
}

#[test]
fn option_transitions() {
    let none: Option<u64> = None;
    let some3: Option<u64> = Some(3);
    let some4: Option<u64> = Some(4);
    assert!(matches!(none.delta(&none).unwrap(), OptionDelta::NoChange));
    assert!(matches!(some3.delta(&some3).unwrap(), OptionDelta::NoChange));
    assert!(matches!(none.delta(&some3).unwrap(), OptionDelta::Insert(3)));
    assert!(matches!(some3.delta(&none).unwrap(), OptionDelta::Remove));
    let modify = some3.delta(&some4).unwrap();
    assert!(matches!(modify, OptionDelta::Modify(U64Delta(Some(4)))));
    assert_eq!(some3.apply_delta(&modify).unwrap(), Some(4));
    assert_eq!(none.apply_delta(&none.delta(&some4).unwrap()).unwrap(), Some(4));
    assert_eq!(some4.apply_delta(&OptionDelta::Remove).unwrap(), None);
}

#[test]
fn option_modify_on_absent_is_error() {
    let none: Option<u64> = None;
    let delta: OptionDelta<u64> = OptionDelta::Modify(U64Delta(Some(1)));
    assert_eq!(none.apply_delta(&delta), Err(DeltaError::ExpectedValue));
}

#[test]
fn tuple_per_position() {
    let a: (u64, bool) = (1, true);
    let b: (u64, bool) = (2, true);
    let delta = a.delta(&b).unwrap();
    assert!(matches!(delta, Tuple2Delta(U64Delta(Some(2)), BoolDelta(Some(true)))));
    assert_eq!(a.apply_delta(&delta).unwrap(), (2, true));
}

#[test]
fn rc_equal_contents_give_none() {
    let a: Rc<u64> = Rc::new(5);
    let b: Rc<u64> = Rc::new(5);
    let delta = a.delta(&b).unwrap();
    assert!(delta.0.is_none());
    assert_eq!(*a.apply_delta(&delta).unwrap(), 5);
}

#[test]
fn rc_changed_contents() {
    let a: Rc<u64> = Rc::new(5);
    let b: Rc<u64> = Rc::new(6);
    let delta = a.delta(&b).unwrap();
    assert!(matches!(delta.0.as_deref(), Some(U64Delta(Some(6)))));
    let patched = a.apply_delta(&delta).unwrap();
    assert_eq!(*patched, 6);
    assert_eq!(*a, 5);
}

#[test]
fn rc_conversions() {
    let full = Rc::new(11u64).into_delta().unwrap();
    assert!(matches!(full.0.as_deref(), Some(U64Delta(Some(11)))));
    assert_eq!(*Rc::<u64>::from_delta(full).unwrap(), 11);
    let empty: RcDelta<u64> = RcDelta(None);
    assert_eq!(*Rc::<u64>::from_delta(empty).unwrap(), 0);
    let bad: RcDelta<u64> = RcDelta(Some(Box::new(U64Delta(None))));
    assert_eq!(Rc::<u64>::from_delta(bad), Err(DeltaError::ExpectedValue));
}

#[test]
fn arc_and_box_round_trip() {
    let a: Arc<Vec<u64>> = Arc::new(vec![1, 2]);
    let b: Arc<Vec<u64>> = Arc::new(vec![1, 3, 5]);
    let delta = a.delta(&b).unwrap();
    assert_eq!(*a.apply_delta(&delta).unwrap(), vec![1, 3, 5]);
    let c: Box<Option<u64>> = Box::new(None);
    let d: Box<Option<u64>> = Box::new(Some(2));
    let delta = c.delta(&d).unwrap();
    assert_eq!(*c.apply_delta(&delta).unwrap(), Some(2));
}

#[test]
fn nested_round_trip_and_inverse() {
    let a: Vec<Option<(u64, bool)>> = vec![Some((1, false)), None, Some((3, true))];
    let b: Vec<Option<(u64, bool)>> = vec![None, Some((2, true))];
    let forward = a.delta(&b).unwrap();
    assert_eq!(a.apply_delta(&forward).unwrap(), b);
    let backward = a.inverse_delta(&b).unwrap();
    assert_eq!(b.apply_delta(&backward).unwrap(), a);
}

#[test]
fn triple_per_position() {
    let a: (u64, bool, char) = (1, true, 'a');
    let b: (u64, bool, char) = (1, false, 'b');
    let delta = a.delta(&b).unwrap();
    assert_eq!(delta.1, BoolDelta(Some(false)));
    assert_eq!(delta.2, CharDelta(Some('b')));
    assert_eq!(a.apply_delta(&delta).unwrap(), b);
    let bad = deltoid::tuple::Tuple3Delta::<u64, bool, char>(U64Delta(None), BoolDelta(Some(true)), CharDelta(Some('c')));
    assert_eq!(a.apply_delta(&bad), Err(DeltaError::ExpectedValue));
}
