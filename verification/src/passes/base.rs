//! Common data that optimization passes are built from.

use vstd::prelude::*;

verus! {

/// Base pass that provides common functionality for all optimization passes.
#[derive(Debug, Clone)]
pub struct BasePass {
    pub name: String,
    pub priority: u32,
}

impl BasePass {
    pub fn new(name: &str, priority: u32) -> (p: Self)
        ensures
            p.name@ == name@,
            p.priority == priority,
    {
        BasePass { name: name.to_string(), priority }
    }
}

/// The kind of work a pass does.
#[derive(Debug, Clone, Copy, PartialEq, Eq, Structural)]
pub enum PassCategory {
    ConstantFolding,
    DeadCodeElimination,
    OperatorFusion,
    Other,
}

} // verus!
