use vstd::prelude::*;

verus! {

/// What can go wrong while a delta is computed or applied.
#[derive(Clone, Copy, Debug, PartialEq, Eq, Structural)]
pub enum DeltaError {
    /// A patch site needed a replacement value or a child delta, and the delta held none.
    ExpectedValue,
    /// The type has a shape that deltas cannot represent.
    UnsupportedType,
}

pub type DeltaResult<T> = Result<T, DeltaError>;

/// The delta algebra: a type, the type of its deltas, and the operations between them.
///
/// Values are described by their deep view. `patched` is what applying a delta does,
/// `is_delta` is exactly what `delta` may return, and the two agree: a delta computed
/// from `a` to `b` takes `a` to `b`.
pub trait DeltaOps: Sized + DeepView {
    type Delta;

    /// The model of the value that applying `d` to a value modelled by `a` gives, or
    /// `None` where `d` lacks a value that the reconstruction needs.
    spec fn patched(a: Self::V, d: Self::Delta) -> Option<Self::V>;

    /// `d` is a delta that `delta` returns from a value modelled by `a` to one modelled by `b`.
    spec fn is_delta(a: Self::V, b: Self::V, d: Self::Delta) -> bool;

    /// `d` is the canonical delta that records no change of a value modelled by `a`.
    spec fn is_unchanged(a: Self::V, d: Self::Delta) -> bool;

    /// The model of the type's initial value.
    spec fn initial_model() -> Self::V;

    proof fn lemma_round_trip(a: Self::V, b: Self::V, d: Self::Delta)
        requires
            Self::is_delta(a, b, d),
        ensures
            Self::patched(a, d) == Some(b),
    ;

    proof fn lemma_identity(a: Self::V, d: Self::Delta)
        requires
            Self::is_delta(a, a, d),
        ensures
            Self::is_unchanged(a, d),
            Self::patched(a, d) == Some(a),
    ;

    /// Calculates the value that `delta` takes `self` to.
    fn apply_delta(&self, delta: &Self::Delta) -> (r: DeltaResult<Self>)
        ensures
            match r {
                Ok(v) => Self::patched(self.deep_view(), *delta) == Some(v.deep_view()),
                Err(e) => Self::patched(self.deep_view(), *delta) is None && e
                    == DeltaError::ExpectedValue,
            },
    ;

    /// Calculates the delta that takes `self` to `other`.
    fn delta(&self, other: &Self) -> (r: DeltaResult<Self::Delta>)
        ensures
            r is Ok,
            r matches Ok(d) ==> Self::is_delta(self.deep_view(), other.deep_view(), d),
    ;

    /// Calculates the delta that takes `other` back to `self`.
    fn inverse_delta(&self, other: &Self) -> (r: DeltaResult<Self::Delta>)
        ensures
            r is Ok,
            r matches Ok(d) ==> Self::is_delta(other.deep_view(), self.deep_view(), d),
    {
        other.delta(self)
    }

    /// Compares two values by their models.
    fn same_value(&self, other: &Self) -> (r: bool)
        ensures
            r == (self.deep_view() == other.deep_view()),
    ;

    /// An independent copy of `self`.
    fn copy_value(&self) -> (r: Self)
        ensures
            r.deep_view() == self.deep_view(),
    ;

    /// The type's initial value, the start of every history.
    fn initial() -> (r: Self)
        ensures
            r.deep_view() == Self::initial_model(),
    ;
}

/// Values that can be written as a delta which rebuilds them from any starting value.
pub trait IntoDelta: DeltaOps {
    /// The full-replacement delta of `self`.
    fn into_delta(self) -> (r: DeltaResult<Self::Delta>)
        ensures
            r is Ok,
            r matches Ok(d) ==> forall|a: Self::V| #[trigger]
                Self::patched(a, d) == Some(self.deep_view()),
    ;
}

/// Values that can be rebuilt from a delta alone, with no earlier value to patch.
pub trait FromDelta: DeltaOps {
    /// The model of the value that `from_delta` rebuilds from `d`, or `None` where `d`
    /// lacks a value that is needed.
    spec fn rebuilt(d: Self::Delta) -> Option<Self::V>;

    fn from_delta(delta: Self::Delta) -> (r: DeltaResult<Self>)
        ensures
            match r {
                Ok(v) => Self::rebuilt(delta) == Some(v.deep_view()),
                Err(e) => Self::rebuilt(delta) is None && e == DeltaError::ExpectedValue,
            },
    ;
}

} // verus!
