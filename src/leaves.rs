//! Scalars are leaves: their deltas replace the value wholesale and never edit it.
use vstd::prelude::*;
use crate::algebra::{DeltaError, DeltaOps, DeltaResult, FromDelta, IntoDelta};

verus! {

/// The delta of a `i8`: `Some` holds the replacement value, `None` holds none.
#[derive(Clone, Copy, Debug, PartialEq, Eq, Structural)]
pub struct I8Delta(pub Option<i8>);

impl DeltaOps for i8 {
    type Delta = I8Delta;

    open spec fn patched(a: i8, d: I8Delta) -> Option<i8> {
        d.0
    }

    open spec fn is_delta(a: i8, b: i8, d: I8Delta) -> bool {
        d.0 == Some(b)
    }

    open spec fn is_unchanged(a: i8, d: I8Delta) -> bool {
        d.0 == Some(a)
    }

    open spec fn initial_model() -> i8 {
        0
    }

    proof fn lemma_round_trip(a: i8, b: i8, d: I8Delta) {
    }

    proof fn lemma_identity(a: i8, d: I8Delta) {
    }

    fn apply_delta(&self, delta: &I8Delta) -> (r: DeltaResult<i8>) {
        match delta.0 {
            Some(v) => Ok(v),
            None => Err(DeltaError::ExpectedValue),
        }
    }

    fn delta(&self, rhs: &i8) -> (r: DeltaResult<I8Delta>) {
        Ok(I8Delta(Some(*rhs)))
    }

    fn same_value(&self, other: &i8) -> (r: bool) {
        *self == *other
    }

    fn copy_value(&self) -> (r: i8) {
        *self
    }

    fn initial() -> (r: i8) {
        0
    }
}

impl IntoDelta for i8 {
    fn into_delta(self) -> (r: DeltaResult<I8Delta>) {
        Ok(I8Delta(Some(self)))
    }
}

impl FromDelta for i8 {
    open spec fn rebuilt(d: I8Delta) -> Option<i8> {
        d.0
    }

    fn from_delta(delta: I8Delta) -> (r: DeltaResult<i8>) {
        match delta.0 {
            Some(v) => Ok(v),
            None => Err(DeltaError::ExpectedValue),
        }
    }
}

/// The delta of a `i16`: `Some` holds the replacement value, `None` holds none.
#[derive(Clone, Copy, Debug, PartialEq, Eq, Structural)]
pub struct I16Delta(pub Option<i16>);

impl DeltaOps for i16 {
    type Delta = I16Delta;

    open spec fn patched(a: i16, d: I16Delta) -> Option<i16> {
        d.0
    }

    open spec fn is_delta(a: i16, b: i16, d: I16Delta) -> bool {
        d.0 == Some(b)
    }

    open spec fn is_unchanged(a: i16, d: I16Delta) -> bool {
        d.0 == Some(a)
    }

    open spec fn initial_model() -> i16 {
        0
    }

    proof fn lemma_round_trip(a: i16, b: i16, d: I16Delta) {
    }

    proof fn lemma_identity(a: i16, d: I16Delta) {
    }

    fn apply_delta(&self, delta: &I16Delta) -> (r: DeltaResult<i16>) {
        match delta.0 {
            Some(v) => Ok(v),
            None => Err(DeltaError::ExpectedValue),
        }
    }

    fn delta(&self, rhs: &i16) -> (r: DeltaResult<I16Delta>) {
        Ok(I16Delta(Some(*rhs)))
    }

    fn same_value(&self, other: &i16) -> (r: bool) {
        *self == *other
    }

    fn copy_value(&self) -> (r: i16) {
        *self
    }

    fn initial() -> (r: i16) {
        0
    }
}

impl IntoDelta for i16 {
    fn into_delta(self) -> (r: DeltaResult<I16Delta>) {
        Ok(I16Delta(Some(self)))
    }
}

impl FromDelta for i16 {
    open spec fn rebuilt(d: I16Delta) -> Option<i16> {
        d.0
    }

    fn from_delta(delta: I16Delta) -> (r: DeltaResult<i16>) {
        match delta.0 {
            Some(v) => Ok(v),
            None => Err(DeltaError::ExpectedValue),
        }
    }
}

/// The delta of a `i32`: `Some` holds the replacement value, `None` holds none.
#[derive(Clone, Copy, Debug, PartialEq, Eq, Structural)]
pub struct I32Delta(pub Option<i32>);

impl DeltaOps for i32 {
    type Delta = I32Delta;

    open spec fn patched(a: i32, d: I32Delta) -> Option<i32> {
        d.0
    }

    open spec fn is_delta(a: i32, b: i32, d: I32Delta) -> bool {
        d.0 == Some(b)
    }

    open spec fn is_unchanged(a: i32, d: I32Delta) -> bool {
        d.0 == Some(a)
    }

    open spec fn initial_model() -> i32 {
        0
    }

    proof fn lemma_round_trip(a: i32, b: i32, d: I32Delta) {
    }

    proof fn lemma_identity(a: i32, d: I32Delta) {
    }

    fn apply_delta(&self, delta: &I32Delta) -> (r: DeltaResult<i32>) {
        match delta.0 {
            Some(v) => Ok(v),
            None => Err(DeltaError::ExpectedValue),
        }
    }

    fn delta(&self, rhs: &i32) -> (r: DeltaResult<I32Delta>) {
        Ok(I32Delta(Some(*rhs)))
    }

    fn same_value(&self, other: &i32) -> (r: bool) {
        *self == *other
    }

    fn copy_value(&self) -> (r: i32) {
        *self
    }

    fn initial() -> (r: i32) {
        0
    }
}

impl IntoDelta for i32 {
    fn into_delta(self) -> (r: DeltaResult<I32Delta>) {
        Ok(I32Delta(Some(self)))
    }
}

impl FromDelta for i32 {
    open spec fn rebuilt(d: I32Delta) -> Option<i32> {
        d.0
    }

    fn from_delta(delta: I32Delta) -> (r: DeltaResult<i32>) {
        match delta.0 {
            Some(v) => Ok(v),
            None => Err(DeltaError::ExpectedValue),
        }
    }
}

/// The delta of a `i64`: `Some` holds the replacement value, `None` holds none.
#[derive(Clone, Copy, Debug, PartialEq, Eq, Structural)]
pub struct I64Delta(pub Option<i64>);

impl DeltaOps for i64 {
    type Delta = I64Delta;

    open spec fn patched(a: i64, d: I64Delta) -> Option<i64> {
        d.0
    }

    open spec fn is_delta(a: i64, b: i64, d: I64Delta) -> bool {
        d.0 == Some(b)
    }

    open spec fn is_unchanged(a: i64, d: I64Delta) -> bool {
        d.0 == Some(a)
    }

    open spec fn initial_model() -> i64 {
        0
    }

    proof fn lemma_round_trip(a: i64, b: i64, d: I64Delta) {
    }

    proof fn lemma_identity(a: i64, d: I64Delta) {
    }

    fn apply_delta(&self, delta: &I64Delta) -> (r: DeltaResult<i64>) {
        match delta.0 {
            Some(v) => Ok(v),
            None => Err(DeltaError::ExpectedValue),
        }
    }

    fn delta(&self, rhs: &i64) -> (r: DeltaResult<I64Delta>) {
        Ok(I64Delta(Some(*rhs)))
    }

    fn same_value(&self, other: &i64) -> (r: bool) {
        *self == *other
    }

    fn copy_value(&self) -> (r: i64) {
        *self
    }

    fn initial() -> (r: i64) {
        0
    }
}

impl IntoDelta for i64 {
    fn into_delta(self) -> (r: DeltaResult<I64Delta>) {
        Ok(I64Delta(Some(self)))
    }
}

impl FromDelta for i64 {
    open spec fn rebuilt(d: I64Delta) -> Option<i64> {
        d.0
    }

    fn from_delta(delta: I64Delta) -> (r: DeltaResult<i64>) {
        match delta.0 {
            Some(v) => Ok(v),
            None => Err(DeltaError::ExpectedValue),
        }
    }
}

/// The delta of a `i128`: `Some` holds the replacement value, `None` holds none.
#[derive(Clone, Copy, Debug, PartialEq, Eq, Structural)]
pub struct I128Delta(pub Option<i128>);

impl DeltaOps for i128 {
    type Delta = I128Delta;

    open spec fn patched(a: i128, d: I128Delta) -> Option<i128> {
        d.0
    }

    open spec fn is_delta(a: i128, b: i128, d: I128Delta) -> bool {
        d.0 == Some(b)
    }

    open spec fn is_unchanged(a: i128, d: I128Delta) -> bool {
        d.0 == Some(a)
    }

    open spec fn initial_model() -> i128 {
        0
    }

    proof fn lemma_round_trip(a: i128, b: i128, d: I128Delta) {
    }

    proof fn lemma_identity(a: i128, d: I128Delta) {
    }

    fn apply_delta(&self, delta: &I128Delta) -> (r: DeltaResult<i128>) {
        match delta.0 {
            Some(v) => Ok(v),
            None => Err(DeltaError::ExpectedValue),
        }
    }

    fn delta(&self, rhs: &i128) -> (r: DeltaResult<I128Delta>) {
        Ok(I128Delta(Some(*rhs)))
    }

    fn same_value(&self, other: &i128) -> (r: bool) {
        *self == *other
    }

    fn copy_value(&self) -> (r: i128) {
        *self
    }

    fn initial() -> (r: i128) {
        0
    }
}

impl IntoDelta for i128 {
    fn into_delta(self) -> (r: DeltaResult<I128Delta>) {
        Ok(I128Delta(Some(self)))
    }
}

impl FromDelta for i128 {
    open spec fn rebuilt(d: I128Delta) -> Option<i128> {
        d.0
    }

    fn from_delta(delta: I128Delta) -> (r: DeltaResult<i128>) {
        match delta.0 {
            Some(v) => Ok(v),
            None => Err(DeltaError::ExpectedValue),
        }
    }
}

/// The delta of a `isize`: `Some` holds the replacement value, `None` holds none.
#[derive(Clone, Copy, Debug, PartialEq, Eq, Structural)]
pub struct IsizeDelta(pub Option<isize>);

impl DeltaOps for isize {
    type Delta = IsizeDelta;

    open spec fn patched(a: isize, d: IsizeDelta) -> Option<isize> {
        d.0
    }

    open spec fn is_delta(a: isize, b: isize, d: IsizeDelta) -> bool {
        d.0 == Some(b)
    }

    open spec fn is_unchanged(a: isize, d: IsizeDelta) -> bool {
        d.0 == Some(a)
    }

    open spec fn initial_model() -> isize {
        0
    }

    proof fn lemma_round_trip(a: isize, b: isize, d: IsizeDelta) {
    }

    proof fn lemma_identity(a: isize, d: IsizeDelta) {
    }

    fn apply_delta(&self, delta: &IsizeDelta) -> (r: DeltaResult<isize>) {
        match delta.0 {
            Some(v) => Ok(v),
            None => Err(DeltaError::ExpectedValue),
        }
    }

    fn delta(&self, rhs: &isize) -> (r: DeltaResult<IsizeDelta>) {
        Ok(IsizeDelta(Some(*rhs)))
    }

    fn same_value(&self, other: &isize) -> (r: bool) {
        *self == *other
    }

    fn copy_value(&self) -> (r: isize) {
        *self
    }

    fn initial() -> (r: isize) {
        0
    }
}

impl IntoDelta for isize {
    fn into_delta(self) -> (r: DeltaResult<IsizeDelta>) {
        Ok(IsizeDelta(Some(self)))
    }
}

impl FromDelta for isize {
    open spec fn rebuilt(d: IsizeDelta) -> Option<isize> {
        d.0
    }

    fn from_delta(delta: IsizeDelta) -> (r: DeltaResult<isize>) {
        match delta.0 {
            Some(v) => Ok(v),
            None => Err(DeltaError::ExpectedValue),
        }
    }
}

/// The delta of a `u8`: `Some` holds the replacement value, `None` holds none.
#[derive(Clone, Copy, Debug, PartialEq, Eq, Structural)]
pub struct U8Delta(pub Option<u8>);

impl DeltaOps for u8 {
    type Delta = U8Delta;

    open spec fn patched(a: u8, d: U8Delta) -> Option<u8> {
        d.0
    }

    open spec fn is_delta(a: u8, b: u8, d: U8Delta) -> bool {
        d.0 == Some(b)
    }

    open spec fn is_unchanged(a: u8, d: U8Delta) -> bool {
        d.0 == Some(a)
    }

    open spec fn initial_model() -> u8 {
        0
    }

    proof fn lemma_round_trip(a: u8, b: u8, d: U8Delta) {
    }

    proof fn lemma_identity(a: u8, d: U8Delta) {
    }

    fn apply_delta(&self, delta: &U8Delta) -> (r: DeltaResult<u8>) {
        match delta.0 {
            Some(v) => Ok(v),
            None => Err(DeltaError::ExpectedValue),
        }
    }

    fn delta(&self, rhs: &u8) -> (r: DeltaResult<U8Delta>) {
        Ok(U8Delta(Some(*rhs)))
    }

    fn same_value(&self, other: &u8) -> (r: bool) {
        *self == *other
    }

    fn copy_value(&self) -> (r: u8) {
        *self
    }

    fn initial() -> (r: u8) {
        0
    }
}

impl IntoDelta for u8 {
    fn into_delta(self) -> (r: DeltaResult<U8Delta>) {
        Ok(U8Delta(Some(self)))
    }
}

impl FromDelta for u8 {
    open spec fn rebuilt(d: U8Delta) -> Option<u8> {
        d.0
    }

    fn from_delta(delta: U8Delta) -> (r: DeltaResult<u8>) {
        match delta.0 {
            Some(v) => Ok(v),
            None => Err(DeltaError::ExpectedValue),
        }
    }
}

/// The delta of a `u16`: `Some` holds the replacement value, `None` holds none.
#[derive(Clone, Copy, Debug, PartialEq, Eq, Structural)]
pub struct U16Delta(pub Option<u16>);

impl DeltaOps for u16 {
    type Delta = U16Delta;

    open spec fn patched(a: u16, d: U16Delta) -> Option<u16> {
        d.0
    }

    open spec fn is_delta(a: u16, b: u16, d: U16Delta) -> bool {
        d.0 == Some(b)
    }

    open spec fn is_unchanged(a: u16, d: U16Delta) -> bool {
        d.0 == Some(a)
    }

    open spec fn initial_model() -> u16 {
        0
    }

    proof fn lemma_round_trip(a: u16, b: u16, d: U16Delta) {
    }

    proof fn lemma_identity(a: u16, d: U16Delta) {
    }

    fn apply_delta(&self, delta: &U16Delta) -> (r: DeltaResult<u16>) {
        match delta.0 {
            Some(v) => Ok(v),
            None => Err(DeltaError::ExpectedValue),
        }
    }

    fn delta(&self, rhs: &u16) -> (r: DeltaResult<U16Delta>) {
        Ok(U16Delta(Some(*rhs)))
    }

    fn same_value(&self, other: &u16) -> (r: bool) {
        *self == *other
    }

    fn copy_value(&self) -> (r: u16) {
        *self
    }

    fn initial() -> (r: u16) {
        0
    }
}

impl IntoDelta for u16 {
    fn into_delta(self) -> (r: DeltaResult<U16Delta>) {
        Ok(U16Delta(Some(self)))
    }
}

impl FromDelta for u16 {
    open spec fn rebuilt(d: U16Delta) -> Option<u16> {
        d.0
    }

    fn from_delta(delta: U16Delta) -> (r: DeltaResult<u16>) {
        match delta.0 {
            Some(v) => Ok(v),
            None => Err(DeltaError::ExpectedValue),
        }
    }
}

/// The delta of a `u32`: `Some` holds the replacement value, `None` holds none.
#[derive(Clone, Copy, Debug, PartialEq, Eq, Structural)]
pub struct U32Delta(pub Option<u32>);

impl DeltaOps for u32 {
    type Delta = U32Delta;

    open spec fn patched(a: u32, d: U32Delta) -> Option<u32> {
        d.0
    }

    open spec fn is_delta(a: u32, b: u32, d: U32Delta) -> bool {
        d.0 == Some(b)
    }

    open spec fn is_unchanged(a: u32, d: U32Delta) -> bool {
        d.0 == Some(a)
    }

    open spec fn initial_model() -> u32 {
        0
    }

    proof fn lemma_round_trip(a: u32, b: u32, d: U32Delta) {
    }

    proof fn lemma_identity(a: u32, d: U32Delta) {
    }

    fn apply_delta(&self, delta: &U32Delta) -> (r: DeltaResult<u32>) {
        match delta.0 {
            Some(v) => Ok(v),
            None => Err(DeltaError::ExpectedValue),
        }
    }

    fn delta(&self, rhs: &u32) -> (r: DeltaResult<U32Delta>) {
        Ok(U32Delta(Some(*rhs)))
    }

    fn same_value(&self, other: &u32) -> (r: bool) {
        *self == *other
    }

    fn copy_value(&self) -> (r: u32) {
        *self
    }

    fn initial() -> (r: u32) {
        0
    }
}

impl IntoDelta for u32 {
    fn into_delta(self) -> (r: DeltaResult<U32Delta>) {
        Ok(U32Delta(Some(self)))
    }
}

impl FromDelta for u32 {
    open spec fn rebuilt(d: U32Delta) -> Option<u32> {
        d.0
    }

    fn from_delta(delta: U32Delta) -> (r: DeltaResult<u32>) {
        match delta.0 {
            Some(v) => Ok(v),
            None => Err(DeltaError::ExpectedValue),
        }
    }
}

/// The delta of a `u64`: `Some` holds the replacement value, `None` holds none.
#[derive(Clone, Copy, Debug, PartialEq, Eq, Structural)]
pub struct U64Delta(pub Option<u64>);

impl DeltaOps for u64 {
    type Delta = U64Delta;

    open spec fn patched(a: u64, d: U64Delta) -> Option<u64> {
        d.0
    }

    open spec fn is_delta(a: u64, b: u64, d: U64Delta) -> bool {
        d.0 == Some(b)
    }

    open spec fn is_unchanged(a: u64, d: U64Delta) -> bool {
        d.0 == Some(a)
    }

    open spec fn initial_model() -> u64 {
        0
    }

    proof fn lemma_round_trip(a: u64, b: u64, d: U64Delta) {
    }

    proof fn lemma_identity(a: u64, d: U64Delta) {
    }

    fn apply_delta(&self, delta: &U64Delta) -> (r: DeltaResult<u64>) {
        match delta.0 {
            Some(v) => Ok(v),
            None => Err(DeltaError::ExpectedValue),
        }
    }

    fn delta(&self, rhs: &u64) -> (r: DeltaResult<U64Delta>) {
        Ok(U64Delta(Some(*rhs)))
    }

    fn same_value(&self, other: &u64) -> (r: bool) {
        *self == *other
    }

    fn copy_value(&self) -> (r: u64) {
        *self
    }

    fn initial() -> (r: u64) {
        0
    }
}

impl IntoDelta for u64 {
    fn into_delta(self) -> (r: DeltaResult<U64Delta>) {
        Ok(U64Delta(Some(self)))
    }
}

impl FromDelta for u64 {
    open spec fn rebuilt(d: U64Delta) -> Option<u64> {
        d.0
    }

    fn from_delta(delta: U64Delta) -> (r: DeltaResult<u64>) {
        match delta.0 {
            Some(v) => Ok(v),
            None => Err(DeltaError::ExpectedValue),
        }
    }
}

/// The delta of a `u128`: `Some` holds the replacement value, `None` holds none.
#[derive(Clone, Copy, Debug, PartialEq, Eq, Structural)]
pub struct U128Delta(pub Option<u128>);

impl DeltaOps for u128 {
    type Delta = U128Delta;

    open spec fn patched(a: u128, d: U128Delta) -> Option<u128> {
        d.0
    }

    open spec fn is_delta(a: u128, b: u128, d: U128Delta) -> bool {
        d.0 == Some(b)
    }

    open spec fn is_unchanged(a: u128, d: U128Delta) -> bool {
        d.0 == Some(a)
    }

    open spec fn initial_model() -> u128 {
        0
    }

    proof fn lemma_round_trip(a: u128, b: u128, d: U128Delta) {
    }

    proof fn lemma_identity(a: u128, d: U128Delta) {
    }

    fn apply_delta(&self, delta: &U128Delta) -> (r: DeltaResult<u128>) {
        match delta.0 {
            Some(v) => Ok(v),
            None => Err(DeltaError::ExpectedValue),
        }
    }

    fn delta(&self, rhs: &u128) -> (r: DeltaResult<U128Delta>) {
        Ok(U128Delta(Some(*rhs)))
    }

    fn same_value(&self, other: &u128) -> (r: bool) {
        *self == *other
    }

    fn copy_value(&self) -> (r: u128) {
        *self
    }

    fn initial() -> (r: u128) {
        0
    }
}

impl IntoDelta for u128 {
    fn into_delta(self) -> (r: DeltaResult<U128Delta>) {
        Ok(U128Delta(Some(self)))
    }
}

impl FromDelta for u128 {
    open spec fn rebuilt(d: U128Delta) -> Option<u128> {
        d.0
    }

    fn from_delta(delta: U128Delta) -> (r: DeltaResult<u128>) {
        match delta.0 {
            Some(v) => Ok(v),
            None => Err(DeltaError::ExpectedValue),
        }
    }
}

/// The delta of a `usize`: `Some` holds the replacement value, `None` holds none.
#[derive(Clone, Copy, Debug, PartialEq, Eq, Structural)]
pub struct UsizeDelta(pub Option<usize>);

impl DeltaOps for usize {
    type Delta = UsizeDelta;

    open spec fn patched(a: usize, d: UsizeDelta) -> Option<usize> {
        d.0
    }

    open spec fn is_delta(a: usize, b: usize, d: UsizeDelta) -> bool {
        d.0 == Some(b)
    }

    open spec fn is_unchanged(a: usize, d: UsizeDelta) -> bool {
        d.0 == Some(a)
    }

    open spec fn initial_model() -> usize {
        0
    }

    proof fn lemma_round_trip(a: usize, b: usize, d: UsizeDelta) {
    }

    proof fn lemma_identity(a: usize, d: UsizeDelta) {
    }

    fn apply_delta(&self, delta: &UsizeDelta) -> (r: DeltaResult<usize>) {
        match delta.0 {
            Some(v) => Ok(v),
            None => Err(DeltaError::ExpectedValue),
        }
    }

    fn delta(&self, rhs: &usize) -> (r: DeltaResult<UsizeDelta>) {
        Ok(UsizeDelta(Some(*rhs)))
    }

    fn same_value(&self, other: &usize) -> (r: bool) {
        *self == *other
    }

    fn copy_value(&self) -> (r: usize) {
        *self
    }

    fn initial() -> (r: usize) {
        0
    }
}

impl IntoDelta for usize {
    fn into_delta(self) -> (r: DeltaResult<UsizeDelta>) {
        Ok(UsizeDelta(Some(self)))
    }
}

impl FromDelta for usize {
    open spec fn rebuilt(d: UsizeDelta) -> Option<usize> {
        d.0
    }

    fn from_delta(delta: UsizeDelta) -> (r: DeltaResult<usize>) {
        match delta.0 {
            Some(v) => Ok(v),
            None => Err(DeltaError::ExpectedValue),
        }
    }
}

/// The delta of a `bool`: `Some` holds the replacement value, `None` holds none.
#[derive(Clone, Copy, Debug, PartialEq, Eq, Structural)]
pub struct BoolDelta(pub Option<bool>);

impl DeltaOps for bool {
    type Delta = BoolDelta;

    open spec fn patched(a: bool, d: BoolDelta) -> Option<bool> {
        d.0
    }

    open spec fn is_delta(a: bool, b: bool, d: BoolDelta) -> bool {
        d.0 == Some(b)
    }

    open spec fn is_unchanged(a: bool, d: BoolDelta) -> bool {
        d.0 == Some(a)
    }

    open spec fn initial_model() -> bool {
        false
    }

    proof fn lemma_round_trip(a: bool, b: bool, d: BoolDelta) {
    }

    proof fn lemma_identity(a: bool, d: BoolDelta) {
    }

    fn apply_delta(&self, delta: &BoolDelta) -> (r: DeltaResult<bool>) {
        match delta.0 {
            Some(v) => Ok(v),
            None => Err(DeltaError::ExpectedValue),
        }
    }

    fn delta(&self, rhs: &bool) -> (r: DeltaResult<BoolDelta>) {
        Ok(BoolDelta(Some(*rhs)))
    }

    fn same_value(&self, other: &bool) -> (r: bool) {
        *self == *other
    }

    fn copy_value(&self) -> (r: bool) {
        *self
    }

    fn initial() -> (r: bool) {
        false
    }
}

impl IntoDelta for bool {
    fn into_delta(self) -> (r: DeltaResult<BoolDelta>) {
        Ok(BoolDelta(Some(self)))
    }
}

impl FromDelta for bool {
    open spec fn rebuilt(d: BoolDelta) -> Option<bool> {
        d.0
    }

    fn from_delta(delta: BoolDelta) -> (r: DeltaResult<bool>) {
        match delta.0 {
            Some(v) => Ok(v),
            None => Err(DeltaError::ExpectedValue),
        }
    }
}

/// The delta of a `char`: `Some` holds the replacement value, `None` holds none.
#[derive(Clone, Copy, Debug, PartialEq, Eq, Structural)]
pub struct CharDelta(pub Option<char>);

impl DeltaOps for char {
    type Delta = CharDelta;

    open spec fn patched(a: char, d: CharDelta) -> Option<char> {
        d.0
    }

    open spec fn is_delta(a: char, b: char, d: CharDelta) -> bool {
        d.0 == Some(b)
    }

    open spec fn is_unchanged(a: char, d: CharDelta) -> bool {
        d.0 == Some(a)
    }

    open spec fn initial_model() -> char {
        '\0'
    }

    proof fn lemma_round_trip(a: char, b: char, d: CharDelta) {
    }

    proof fn lemma_identity(a: char, d: CharDelta) {
    }

    fn apply_delta(&self, delta: &CharDelta) -> (r: DeltaResult<char>) {
        match delta.0 {
            Some(v) => Ok(v),
            None => Err(DeltaError::ExpectedValue),
        }
    }

    fn delta(&self, rhs: &char) -> (r: DeltaResult<CharDelta>) {
        Ok(CharDelta(Some(*rhs)))
    }

    fn same_value(&self, other: &char) -> (r: bool) {
        *self == *other
    }

    fn copy_value(&self) -> (r: char) {
        *self
    }

    fn initial() -> (r: char) {
        '\0'
    }
}

impl IntoDelta for char {
    fn into_delta(self) -> (r: DeltaResult<CharDelta>) {
        Ok(CharDelta(Some(self)))
    }
}

impl FromDelta for char {
    open spec fn rebuilt(d: CharDelta) -> Option<char> {
        d.0
    }

    fn from_delta(delta: CharDelta) -> (r: DeltaResult<char>) {
        match delta.0 {
            Some(v) => Ok(v),
            None => Err(DeltaError::ExpectedValue),
        }
    }
}

/// The delta of a `()`: `Some` holds the replacement value, `None` holds none.
#[derive(Clone, Copy, Debug, PartialEq, Eq)]
pub struct UnitDelta(pub Option<()>);

impl DeltaOps for () {
    type Delta = UnitDelta;

    open spec fn patched(a: (), d: UnitDelta) -> Option<()> {
        d.0
    }

    open spec fn is_delta(a: (), b: (), d: UnitDelta) -> bool {
        d.0 == Some(b)
    }

    open spec fn is_unchanged(a: (), d: UnitDelta) -> bool {
        d.0 == Some(a)
    }

    open spec fn initial_model() -> () {
        ()
    }

    proof fn lemma_round_trip(a: (), b: (), d: UnitDelta) {
    }

    proof fn lemma_identity(a: (), d: UnitDelta) {
    }

    fn apply_delta(&self, delta: &UnitDelta) -> (r: DeltaResult<()>) {
        match delta.0 {
            Some(v) => Ok(v),
            None => Err(DeltaError::ExpectedValue),
        }
    }

    fn delta(&self, rhs: &()) -> (r: DeltaResult<UnitDelta>) {
        Ok(UnitDelta(Some(*rhs)))
    }

    fn same_value(&self, other: &()) -> (r: bool) {
        true
    }

    fn copy_value(&self) -> (r: ()) {
        *self
    }

    fn initial() -> (r: ()) {
        ()
    }
}

impl IntoDelta for () {
    fn into_delta(self) -> (r: DeltaResult<UnitDelta>) {
        Ok(UnitDelta(Some(self)))
    }
}

impl FromDelta for () {
    open spec fn rebuilt(d: UnitDelta) -> Option<()> {
        d.0
    }

    fn from_delta(delta: UnitDelta) -> (r: DeltaResult<()>) {
        match delta.0 {
            Some(v) => Ok(v),
            None => Err(DeltaError::ExpectedValue),
        }
    }
}

} // verus!
