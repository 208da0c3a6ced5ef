//! Identifier translation between two builds of a library: type expressions,
//! generic-argument lists and predicates taken from one build's model are rewritten
//! into the other build's vocabulary so that the two can be compared node for node.
use vstd::prelude::*;

pub mod ty;
pub mod mapping;
pub mod db;
pub mod copy;
pub mod translate;
pub mod cleanup;
pub mod laws;

verus! {

} // verus!
