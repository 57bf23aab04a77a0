//! The `ConstantFoldingPass` placeholder pass.

use vstd::prelude::*;
use crate::graph::store::Graph;
use crate::passes::base::{BasePass, PassCategory};
use crate::passes::error::PassError;
use crate::passes::traits::OptimizationPass;

verus! {

/// Constant folding optimization pass; it does not change the graph yet.
#[derive(Debug, Clone)]
pub struct ConstantFoldingPass {
    pub base: BasePass,
}

impl ConstantFoldingPass {
    pub fn new() -> (p: Self)
        ensures
            p.base.name@ == "constant_folding"@,
            p.base.priority == 1,
    {
        ConstantFoldingPass { base: BasePass::new("constant_folding", 1) }
    }

    pub fn category(&self) -> (c: PassCategory)
        ensures
            c == PassCategory::ConstantFolding,
    {
        PassCategory::ConstantFolding
    }
}

impl Default for ConstantFoldingPass {
    fn default() -> (p: Self) {
        Self::new()
    }
}

impl OptimizationPass for ConstantFoldingPass {
    fn pass_name(&self) -> (name: String)
        ensures
            name@ == self.base.name@,
    {
        self.base.name.clone()
    }

    /// Makes no change and reports none.
    fn execute(&self, graph: &mut Graph) -> (r: Result<u32, PassError>)
        ensures
            r == Ok::<u32, PassError>(0u32),
            *final(graph) == *old(graph),
    {
        Ok(0)
    }
}

} // verus!
