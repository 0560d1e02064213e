use vstd::prelude::*;
use std::sync::Arc;
use crate::algebra::{DeltaOps, DeltaResult, FromDelta, IntoDelta};

verus! {

/// The delta of a value shared across threads: `None` where the contents are equal, else the contents' delta.
pub struct ArcDelta<T: DeltaOps>(pub Option<Box<T::Delta>>);

impl<T: DeltaOps> DeltaOps for Arc<T> {
    type Delta = ArcDelta<T>;

    open spec fn patched(a: T::V, d: ArcDelta<T>) -> Option<T::V> {
        match d.0 {
            None => Some(a),
            Some(inner) => T::patched(a, *inner),
        }
    }

    open spec fn is_delta(a: T::V, b: T::V, d: ArcDelta<T>) -> bool {
        if a == b {
            d.0 is None
        } else {
            d.0 matches Some(inner) && T::is_delta(a, b, *inner)
        }
    }

    open spec fn is_unchanged(a: T::V, d: ArcDelta<T>) -> bool {
        d.0 is None
    }

    open spec fn initial_model() -> T::V {
        T::initial_model()
    }

    proof fn lemma_round_trip(a: T::V, b: T::V, d: ArcDelta<T>) {
        if a != b {
            T::lemma_round_trip(a, b, *d.0->Some_0);
        }
    }

    proof fn lemma_identity(a: T::V, d: ArcDelta<T>) {
    }

    fn apply_delta(&self, delta: &ArcDelta<T>) -> (r: DeltaResult<Arc<T>>) {
        let lhs: &T = &**self;
        match &delta.0 {
            None => Ok(self.clone()),
            Some(inner) => match lhs.apply_delta(inner) {
                Ok(v) => Ok(Arc::new(v)),
                Err(e) => Err(e),
            },
        }
    }

    fn delta(&self, rhs: &Arc<T>) -> (r: DeltaResult<ArcDelta<T>>) {
        let lhs: &T = &**self;
        let rhs: &T = &**rhs;
        if lhs.same_value(rhs) {
            Ok(ArcDelta(None))
        } else {
            match lhs.delta(rhs) {
                Ok(d) => Ok(ArcDelta(Some(Box::new(d)))),
                Err(e) => Err(e),
            }
        }
    }

    fn same_value(&self, other: &Arc<T>) -> (r: bool) {
        (**self).same_value(&**other)
    }

    fn copy_value(&self) -> (r: Arc<T>) {
        Arc::new((**self).copy_value())
    }

    fn initial() -> (r: Arc<T>) {
        Arc::new(T::initial())
    }
}

impl<T: IntoDelta> IntoDelta for Arc<T> {
    fn into_delta(self) -> (r: DeltaResult<ArcDelta<T>>) {
        let thing: T = (*self).copy_value();
        match thing.into_delta() {
            Ok(d) => Ok(ArcDelta(Some(Box::new(d)))),
            Err(e) => Err(e),
        }
    }
}

impl<T: FromDelta> FromDelta for Arc<T> {
    open spec fn rebuilt(d: ArcDelta<T>) -> Option<T::V> {
        match d.0 {
            None => Some(T::initial_model()),
            Some(inner) => T::rebuilt(*inner),
        }
    }

    fn from_delta(delta: ArcDelta<T>) -> (r: DeltaResult<Arc<T>>) {
        match delta.0 {
            None => Ok(Arc::new(T::initial())),
            Some(inner) => match T::from_delta(*inner) {
                Ok(v) => Ok(Arc::new(v)),
                Err(e) => Err(e),
            },
        }
    }
}

} // verus!
