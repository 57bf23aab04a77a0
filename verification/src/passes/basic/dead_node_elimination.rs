//! The `DeadNodeEliminationPass` pass, not implemented yet.

use vstd::prelude::*;
use crate::graph::store::Graph;
use crate::passes::base::PassCategory;
use crate::passes::error::PassError;
use crate::passes::traits::OptimizationPass;

verus! {

/// Dead node elimination pass.
#[derive(Debug, Clone)]
pub struct DeadNodeEliminationPass;

impl DeadNodeEliminationPass {
    pub fn new() -> (p: Self) {
        DeadNodeEliminationPass
    }

    pub fn category(&self) -> (c: PassCategory)
        ensures
            c == PassCategory::DeadCodeElimination,
    {
        PassCategory::DeadCodeElimination
    }
}

impl Default for DeadNodeEliminationPass {
    fn default() -> (p: Self) {
        Self::new()
    }
}

impl OptimizationPass for DeadNodeEliminationPass {
    fn pass_name(&self) -> (name: String)
        ensures
            name@ == "dead_node_elimination"@,
    {
        "dead_node_elimination".to_string()
    }

    /// Reports that the pass is not implemented, leaving the graph alone.
    fn execute(&self, graph: &mut Graph) -> (r: Result<u32, PassError>)
        ensures
            r matches Err(PassError::NotImplemented(m)) && m@
                == "Execute dead node elimination pass"@,
            *final(graph) == *old(graph),
    {
        Err(PassError::NotImplemented("Execute dead node elimination pass".to_string()))
    }
}

} // verus!
