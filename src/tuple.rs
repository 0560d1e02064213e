//! Fixed tuples: one child delta per position, since the arity never changes.
use vstd::prelude::*;
use crate::algebra::{DeltaOps, DeltaResult};

verus! {

/// The delta of a pair: the deltas of its two positions.
pub struct Tuple2Delta<A: DeltaOps, B: DeltaOps>(pub A::Delta, pub B::Delta);

impl<A: DeltaOps, B: DeltaOps> DeltaOps for (A, B) {
    type Delta = Tuple2Delta<A, B>;

    open spec fn patched(a: (A::V, B::V), d: Tuple2Delta<A, B>) -> Option<(A::V, B::V)> {
        match (A::patched(a.0, d.0), B::patched(a.1, d.1)) {
            (Some(x), Some(y)) => Some((x, y)),
            _ => None,
        }
    }

    open spec fn is_delta(a: (A::V, B::V), b: (A::V, B::V), d: Tuple2Delta<A, B>) -> bool {
        A::is_delta(a.0, b.0, d.0) && B::is_delta(a.1, b.1, d.1)
    }

    open spec fn is_unchanged(a: (A::V, B::V), d: Tuple2Delta<A, B>) -> bool {
        A::is_unchanged(a.0, d.0) && B::is_unchanged(a.1, d.1)
    }

    open spec fn initial_model() -> (A::V, B::V) {
        (A::initial_model(), B::initial_model())
    }

    proof fn lemma_round_trip(a: (A::V, B::V), b: (A::V, B::V), d: Tuple2Delta<A, B>) {
        A::lemma_round_trip(a.0, b.0, d.0);
        B::lemma_round_trip(a.1, b.1, d.1);
    }

    proof fn lemma_identity(a: (A::V, B::V), d: Tuple2Delta<A, B>) {
        A::lemma_identity(a.0, d.0);
        B::lemma_identity(a.1, d.1);
    }

    fn apply_delta(&self, delta: &Tuple2Delta<A, B>) -> (r: DeltaResult<(A, B)>) {
        let x = match self.0.apply_delta(&delta.0) {
            Ok(x) => x,
            Err(e) => return Err(e),
        };
        let y = match self.1.apply_delta(&delta.1) {
            Ok(y) => y,
            Err(e) => return Err(e),
        };
        Ok((x, y))
    }

    fn delta(&self, rhs: &(A, B)) -> (r: DeltaResult<Tuple2Delta<A, B>>) {
        let d0 = match self.0.delta(&rhs.0) {
            Ok(d) => d,
            Err(e) => return Err(e),
        };
        let d1 = match self.1.delta(&rhs.1) {
            Ok(d) => d,
            Err(e) => return Err(e),
        };
        Ok(Tuple2Delta(d0, d1))
    }

    fn same_value(&self, other: &(A, B)) -> (r: bool) {
        self.0.same_value(&other.0) && self.1.same_value(&other.1)
    }

    fn copy_value(&self) -> (r: (A, B)) {
        (self.0.copy_value(), self.1.copy_value())
    }

    fn initial() -> (r: (A, B)) {
        (A::initial(), B::initial())
    }
}

/// The delta of a triple: the deltas of its three positions.
pub struct Tuple3Delta<A: DeltaOps, B: DeltaOps, C: DeltaOps>(pub A::Delta, pub B::Delta, pub C::Delta);

impl<A: DeltaOps, B: DeltaOps, C: DeltaOps> DeltaOps for (A, B, C) {
    type Delta = Tuple3Delta<A, B, C>;

    open spec fn patched(a: (A::V, B::V, C::V), d: Tuple3Delta<A, B, C>) -> Option<(A::V, B::V, C::V)> {
        match (A::patched(a.0, d.0), B::patched(a.1, d.1), C::patched(a.2, d.2)) {
            (Some(x), Some(y), Some(z)) => Some((x, y, z)),
            _ => None,
        }
    }

    open spec fn is_delta(a: (A::V, B::V, C::V), b: (A::V, B::V, C::V), d: Tuple3Delta<A, B, C>) -> bool {
        A::is_delta(a.0, b.0, d.0) && B::is_delta(a.1, b.1, d.1) && C::is_delta(a.2, b.2, d.2)
    }

    open spec fn is_unchanged(a: (A::V, B::V, C::V), d: Tuple3Delta<A, B, C>) -> bool {
        A::is_unchanged(a.0, d.0) && B::is_unchanged(a.1, d.1) && C::is_unchanged(a.2, d.2)
    }

    open spec fn initial_model() -> (A::V, B::V, C::V) {
        (A::initial_model(), B::initial_model(), C::initial_model())
    }

    proof fn lemma_round_trip(a: (A::V, B::V, C::V), b: (A::V, B::V, C::V), d: Tuple3Delta<A, B, C>) {
        A::lemma_round_trip(a.0, b.0, d.0);
        B::lemma_round_trip(a.1, b.1, d.1);
        C::lemma_round_trip(a.2, b.2, d.2);
    }

    proof fn lemma_identity(a: (A::V, B::V, C::V), d: Tuple3Delta<A, B, C>) {
        A::lemma_identity(a.0, d.0);
        B::lemma_identity(a.1, d.1);
        C::lemma_identity(a.2, d.2);
    }

    fn apply_delta(&self, delta: &Tuple3Delta<A, B, C>) -> (r: DeltaResult<(A, B, C)>) {
        let x = match self.0.apply_delta(&delta.0) {
            Ok(x) => x,
            Err(e) => return Err(e),
        };
        let y = match self.1.apply_delta(&delta.1) {
            Ok(y) => y,
            Err(e) => return Err(e),
        };
        let z = match self.2.apply_delta(&delta.2) {
            Ok(z) => z,
            Err(e) => return Err(e),
        };
        Ok((x, y, z))
    }

    fn delta(&self, rhs: &(A, B, C)) -> (r: DeltaResult<Tuple3Delta<A, B, C>>) {
        let d0 = match self.0.delta(&rhs.0) {
            Ok(d) => d,
            Err(e) => return Err(e),
        };
        let d1 = match self.1.delta(&rhs.1) {
            Ok(d) => d,
            Err(e) => return Err(e),
        };
        let d2 = match self.2.delta(&rhs.2) {
            Ok(d) => d,
            Err(e) => return Err(e),
        };
        Ok(Tuple3Delta(d0, d1, d2))
    }

    fn same_value(&self, other: &(A, B, C)) -> (r: bool) {
        self.0.same_value(&other.0) && self.1.same_value(&other.1) && self.2.same_value(&other.2)
    }

    fn copy_value(&self) -> (r: (A, B, C)) {
        (self.0.copy_value(), self.1.copy_value(), self.2.copy_value())
    }

    fn initial() -> (r: (A, B, C)) {
        (A::initial(), B::initial(), C::initial())
    }
}

} // verus!
