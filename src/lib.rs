//! Structural deltas between values of the same type, and histories of states kept
//! either as full states or as deltas from one state to the next.
pub mod algebra;
pub mod boxed;
pub mod codegen;
pub mod collections;
pub mod laws;
pub mod leaves;
pub mod option;
pub mod rc;
pub mod snapshot;
pub mod string;
pub mod sync;
pub mod tuple;
pub mod vec;
