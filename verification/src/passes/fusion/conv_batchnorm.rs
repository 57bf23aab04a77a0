//! The `ConvBatchNormFusionPass` pass, not implemented yet.

use vstd::prelude::*;
use crate::graph::store::Graph;
use crate::passes::base::PassCategory;
use crate::passes::error::PassError;
use crate::passes::traits::OptimizationPass;

verus! {

/// Fusion pass for Conv + BatchNorm operations.
pub struct ConvBatchNormFusionPass;

impl ConvBatchNormFusionPass {
    pub fn new() -> (p: Self) {
        ConvBatchNormFusionPass
    }

    pub fn category(&self) -> (c: PassCategory)
        ensures
            c == PassCategory::OperatorFusion,
    {
        PassCategory::OperatorFusion
    }
}

impl Default for ConvBatchNormFusionPass {
    fn default() -> (p: Self) {
        Self::new()
    }
}

impl OptimizationPass for ConvBatchNormFusionPass {
    fn pass_name(&self) -> (name: String)
        ensures
            name@ == "conv_batchnorm_fusion"@,
    {
        "conv_batchnorm_fusion".to_string()
    }

    /// Reports that the pass is not implemented, leaving the graph alone.
    fn execute(&self, graph: &mut Graph) -> (r: Result<u32, PassError>)
        ensures
            r matches Err(PassError::NotImplemented(m)) && m@
                == "Execute Conv+BatchNorm fusion pass"@,
            *final(graph) == *old(graph),
    {
        Err(PassError::NotImplemented("Execute Conv+BatchNorm fusion pass".to_string()))
    }
}

} // verus!
