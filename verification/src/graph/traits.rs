//! Optimization levels.

use vstd::prelude::*;

verus! {

/// Optimization level configuration.
#[derive(Debug, Clone, Copy, PartialEq, Eq, Structural)]
pub enum OptimizationLevel {
    /// Only basic, safe optimizations.
    Basic,
}

impl OptimizationLevel {
    /// Check if basic optimizations are enabled.
    pub fn includes_basic(&self) -> (b: bool)
        ensures
            b == (*self is Basic),
    {
        match self {
            OptimizationLevel::Basic => true,
        }
    }
}

} // verus!
