use vstd::prelude::*;
use std::rc::Rc;
use crate::algebra::{DeltaOps, DeltaResult, FromDelta, IntoDelta};

verus! {

/// The delta of a shared value: `None` where the contents are equal, else the contents' delta.
pub struct RcDelta<T: DeltaOps>(pub Option<Box<T::Delta>>);

impl<T: DeltaOps> DeltaOps for Rc<T> {
    type Delta = RcDelta<T>;

    open spec fn patched(a: T::V, d: RcDelta<T>) -> Option<T::V> {
        match d.0 {
            None => Some(a),
            Some(inner) => T::patched(a, *inner),
        }
    }

    open spec fn is_delta(a: T::V, b: T::V, d: RcDelta<T>) -> bool {
        if a == b {
            d.0 is None
        } else {
            d.0 matches Some(inner) && T::is_delta(a, b, *inner)
        }
    }

    open spec fn is_unchanged(a: T::V, d: RcDelta<T>) -> bool {
        d.0 is None
    }

    open spec fn initial_model() -> T::V {
        T::initial_model()
    }

    proof fn lemma_round_trip(a: T::V, b: T::V, d: RcDelta<T>) {
        if a != b {
            T::lemma_round_trip(a, b, *d.0->Some_0);
        }
    }

    proof fn lemma_identity(a: T::V, d: RcDelta<T>) {
    }

    fn apply_delta(&self, delta: &RcDelta<T>) -> (r: DeltaResult<Rc<T>>) {
        let lhs: &T = &**self;
        match &delta.0 {
            None => Ok(self.clone()),
            Some(inner) => match lhs.apply_delta(inner) {
                Ok(v) => Ok(Rc::new(v)),
                Err(e) => Err(e),
            },
        }
    }

    fn delta(&self, rhs: &Rc<T>) -> (r: DeltaResult<RcDelta<T>>) {
        let lhs: &T = &**self;
        let rhs: &T = &**rhs;
        if lhs.same_value(rhs) {
            Ok(RcDelta(None))
        } else {
            match lhs.delta(rhs) {
                Ok(d) => Ok(RcDelta(Some(Box::new(d)))),
                Err(e) => Err(e),
            }
        }
    }

    fn same_value(&self, other: &Rc<T>) -> (r: bool) {
        (**self).same_value(&**other)
    }

    fn copy_value(&self) -> (r: Rc<T>) {
        Rc::new((**self).copy_value())
    }

    fn initial() -> (r: Rc<T>) {
        Rc::new(T::initial())
    }
}

impl<T: IntoDelta> IntoDelta for Rc<T> {
    fn into_delta(self) -> (r: DeltaResult<RcDelta<T>>) {
        let thing: T = (*self).copy_value();
        match thing.into_delta() {
            Ok(d) => Ok(RcDelta(Some(Box::new(d)))),
            Err(e) => Err(e),
        }
    }
}

impl<T: FromDelta> FromDelta for Rc<T> {
    open spec fn rebuilt(d: RcDelta<T>) -> Option<T::V> {
        match d.0 {
            None => Some(T::initial_model()),
            Some(inner) => T::rebuilt(*inner),
        }
    }

    fn from_delta(delta: RcDelta<T>) -> (r: DeltaResult<Rc<T>>) {
        match delta.0 {
            None => Ok(Rc::new(T::initial())),
            Some(inner) => match T::from_delta(*inner) {
                Ok(v) => Ok(Rc::new(v)),
                Err(e) => Err(e),
            },
        }
    }
}

} // verus!
