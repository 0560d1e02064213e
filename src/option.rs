//! Optional values: presence is compared first, contents only where both are present.
use vstd::prelude::*;
use crate::algebra::{DeltaError, DeltaOps, DeltaResult};

verus! {

/// The delta of an optional value.
pub enum OptionDelta<T: DeltaOps> {
    /// Both absent, or both present and equal.
    NoChange,
    /// The value became present with these contents.
    Insert(T),
    /// The value became absent.
    Remove,
    /// Both present, and the contents changed by this child delta.
    Modify(T::Delta),
}

impl<T: DeltaOps> DeltaOps for Option<T> {
    type Delta = OptionDelta<T>;

    open spec fn patched(a: Option<T::V>, d: OptionDelta<T>) -> Option<Option<T::V>> {
        match d {
            OptionDelta::NoChange => Some(a),
            OptionDelta::Insert(v) => Some(Some(v.deep_view())),
            OptionDelta::Remove => Some(None),
            OptionDelta::Modify(e) => match a {
                None => None,
                Some(x) => match T::patched(x, e) {
                    None => None,
                    Some(y) => Some(Some(y)),
                },
            },
        }
    }

    open spec fn is_delta(a: Option<T::V>, b: Option<T::V>, d: OptionDelta<T>) -> bool {
        match (a, b) {
            (None, None) => d is NoChange,
            (None, Some(y)) => d matches OptionDelta::Insert(v) && v.deep_view() == y,
            (Some(_), None) => d is Remove,
            (Some(x), Some(y)) => if x == y {
                d is NoChange
            } else {
                d matches OptionDelta::Modify(e) && T::is_delta(x, y, e)
            },
        }
    }

    open spec fn is_unchanged(a: Option<T::V>, d: OptionDelta<T>) -> bool {
        d is NoChange
    }

    open spec fn initial_model() -> Option<T::V> {
        None
    }

    proof fn lemma_round_trip(a: Option<T::V>, b: Option<T::V>, d: OptionDelta<T>) {
        if let (Some(x), Some(y)) = (a, b) {
            if x != y {
                T::lemma_round_trip(x, y, d->Modify_0);
            }
        }
    }

    proof fn lemma_identity(a: Option<T::V>, d: OptionDelta<T>) {
    }

    fn apply_delta(&self, delta: &OptionDelta<T>) -> (r: DeltaResult<Option<T>>) {
        match delta {
            OptionDelta::NoChange => Ok(self.copy_value()),
            OptionDelta::Insert(v) => Ok(Some(v.copy_value())),
            OptionDelta::Remove => Ok(None),
            OptionDelta::Modify(e) => match self {
                None => Err(DeltaError::ExpectedValue),
                Some(x) => match x.apply_delta(e) {
                    Ok(y) => Ok(Some(y)),
                    Err(err) => Err(err),
                },
            },
        }
    }

    fn delta(&self, rhs: &Option<T>) -> (r: DeltaResult<OptionDelta<T>>) {
        match (self, rhs) {
            (None, None) => Ok(OptionDelta::NoChange),
            (None, Some(y)) => Ok(OptionDelta::Insert(y.copy_value())),
            (Some(_), None) => Ok(OptionDelta::Remove),
            (Some(x), Some(y)) => {
                if x.same_value(y) {
                    Ok(OptionDelta::NoChange)
                } else {
                    match x.delta(y) {
                        Ok(e) => Ok(OptionDelta::Modify(e)),
                        Err(err) => Err(err),
                    }
                }
            },
        }
    }

    fn same_value(&self, other: &Option<T>) -> (r: bool) {
        match (self, other) {
            (None, None) => true,
            (Some(x), Some(y)) => x.same_value(y),
            _ => false,
        }
    }

    fn copy_value(&self) -> (r: Option<T>) {
        match self {
            None => None,
            Some(x) => Some(x.copy_value()),
        }
    }

    fn initial() -> (r: Option<T>) {
        None
    }
}

} // verus!
