//! A simulator for a 4-bit accumulator machine with sixteen memory words:
//! an encoder from instructions to a binary image, a label resolver, and an
//! engine that emits two bus and register snapshots per clock step.
use vstd::prelude::*;

pub mod instruction;
pub mod labels;
pub mod generate;
pub mod simulate;
pub mod theorems;

verus! {

} // verus!
