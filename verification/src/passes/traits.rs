//! The interface every optimization pass implements.

use vstd::prelude::*;
use crate::graph::store::Graph;
use crate::passes::error::PassError;

verus! {

/// Core optimization trait that all optimization passes implement.
pub trait OptimizationPass {
    /// Name of the optimization pass for logging/debugging.
    fn pass_name(&self) -> String;

    /// Executes the optimization pass on the given graph and returns the
    /// number of changes made (0 = no changes, used for fixed-point
    /// iteration).
    fn execute(&self, graph: &mut Graph) -> (r: Result<u32, PassError>)
        requires
            old(graph).wf(),
            old(graph).node_arena().slots().len() <= u32::MAX,
        ensures
            final(graph).wf(),
            final(graph).node_arena().slots().len() <= u32::MAX,
    ;
}

} // verus!
