//! Strings are leaves: their deltas replace the whole string.
use vstd::prelude::*;
use crate::algebra::{DeltaError, DeltaOps, DeltaResult, FromDelta, IntoDelta};

verus! {

/// The delta of a string: `Some` holds the replacement, `None` holds none.
#[derive(Clone, Debug, PartialEq, Eq)]
pub struct StringDelta(pub Option<String>);

impl DeltaOps for String {
    type Delta = StringDelta;

    open spec fn patched(a: Seq<char>, d: StringDelta) -> Option<Seq<char>> {
        match d.0 {
            Some(s) => Some(s@),
            None => None,
        }
    }

    open spec fn is_delta(a: Seq<char>, b: Seq<char>, d: StringDelta) -> bool {
        d.0 matches Some(s) && s@ == b
    }

    open spec fn is_unchanged(a: Seq<char>, d: StringDelta) -> bool {
        d.0 matches Some(s) && s@ == a
    }

    open spec fn initial_model() -> Seq<char> {
        Seq::empty()
    }

    proof fn lemma_round_trip(a: Seq<char>, b: Seq<char>, d: StringDelta) {
    }

    proof fn lemma_identity(a: Seq<char>, d: StringDelta) {
    }

    fn apply_delta(&self, delta: &StringDelta) -> (r: DeltaResult<String>) {
        match &delta.0 {
            Some(s) => Ok(s.clone()),
            None => Err(DeltaError::ExpectedValue),
        }
    }

    fn delta(&self, rhs: &String) -> (r: DeltaResult<StringDelta>) {
        Ok(StringDelta(Some(rhs.clone())))
    }

    fn same_value(&self, other: &String) -> (r: bool) {
        *self == *other
    }

    fn copy_value(&self) -> (r: String) {
        self.clone()
    }

    fn initial() -> (r: String) {
        let r = String::new();
        r
    }
}

impl IntoDelta for String {
    fn into_delta(self) -> (r: DeltaResult<StringDelta>) {
        Ok(StringDelta(Some(self)))
    }
}

impl FromDelta for String {
    open spec fn rebuilt(d: StringDelta) -> Option<Seq<char>> {
        match d.0 {
            Some(s) => Some(s@),
            None => None,
        }
    }

    fn from_delta(delta: StringDelta) -> (r: DeltaResult<String>) {
        match delta.0 {
            Some(s) => Ok(s),
            None => Err(DeltaError::ExpectedValue),
        }
    }
}

} // verus!
