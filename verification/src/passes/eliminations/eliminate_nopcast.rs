//! The `EliminateNopCast` pass, which has no behaviour yet.

use vstd::prelude::*;

verus! {

/// Meant to remove cast operations whose input and output types are equal
/// (e.g. f32 -> cast -> f32); it has no behaviour yet.
#[derive(Debug, Clone)]
pub struct EliminateNopCast;

impl EliminateNopCast {
    pub fn new() -> (p: Self) {
        EliminateNopCast
    }
}

} // verus!
