use vstd::prelude::*;

use crate::algebra::{DeltaOps, DeltaResult, FromDelta, IntoDelta};

verus! {

/// The delta of a boxed value: `None` where the contents are equal, else the contents' delta.
pub struct BoxDelta<T: DeltaOps>(pub Option<Box<T::Delta>>);

impl<T: DeltaOps> DeltaOps for Box<T> {
    type Delta = BoxDelta<T>;

    open spec fn patched(a: T::V, d: BoxDelta<T>) -> Option<T::V> {
        match d.0 {
            None => Some(a),
            Some(inner) => T::patched(a, *inner),
        }
    }

    open spec fn is_delta(a: T::V, b: T::V, d: BoxDelta<T>) -> bool {
        if a == b {
            d.0 is None
        } else {
            d.0 matches Some(inner) && T::is_delta(a, b, *inner)
        }
    }

    open spec fn is_unchanged(a: T::V, d: BoxDelta<T>) -> bool {
        d.0 is None
    }

    open spec fn initial_model() -> T::V {
        T::initial_model()
    }

    proof fn lemma_round_trip(a: T::V, b: T::V, d: BoxDelta<T>) {
        if a != b {
            T::lemma_round_trip(a, b, *d.0->Some_0);
        }
    }

    proof fn lemma_identity(a: T::V, d: BoxDelta<T>) {
    }

    fn apply_delta(&self, delta: &BoxDelta<T>) -> (r: DeltaResult<Box<T>>) {
        let lhs: &T = &**self;
        match &delta.0 {
            None => Ok(self.copy_value()),
            Some(inner) => match lhs.apply_delta(inner) {
                Ok(v) => Ok(Box::new(v)),
                Err(e) => Err(e),
            },
        }
    }

    fn delta(&self, rhs: &Box<T>) -> (r: DeltaResult<BoxDelta<T>>) {
        let lhs: &T = &**self;
        let rhs: &T = &**rhs;
        if lhs.same_value(rhs) {
            Ok(BoxDelta(None))
        } else {
            match lhs.delta(rhs) {
                Ok(d) => Ok(BoxDelta(Some(Box::new(d)))),
                Err(e) => Err(e),
            }
        }
    }

    fn same_value(&self, other: &Box<T>) -> (r: bool) {
        (**self).same_value(&**other)
    }

    fn copy_value(&self) -> (r: Box<T>) {
        Box::new((**self).copy_value())
    }

    fn initial() -> (r: Box<T>) {
        Box::new(T::initial())
    }
}

impl<T: IntoDelta> IntoDelta for Box<T> {
    fn into_delta(self) -> (r: DeltaResult<BoxDelta<T>>) {
        let thing: T = (*self).copy_value();
        match thing.into_delta() {
            Ok(d) => Ok(BoxDelta(Some(Box::new(d)))),
            Err(e) => Err(e),
        }
    }
}

impl<T: FromDelta> FromDelta for Box<T> {
    open spec fn rebuilt(d: BoxDelta<T>) -> Option<T::V> {
        match d.0 {
            None => Some(T::initial_model()),
            Some(inner) => T::rebuilt(*inner),
        }
    }

    fn from_delta(delta: BoxDelta<T>) -> (r: DeltaResult<Box<T>>) {
        match delta.0 {
            None => Ok(Box::new(T::initial())),
            Some(inner) => match T::from_delta(*inner) {
                Ok(v) => Ok(Box::new(v)),
                Err(e) => Err(e),
            },
        }
    }
}

} // verus!
