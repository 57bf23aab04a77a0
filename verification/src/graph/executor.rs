//! Configuration of the level-driven optimization executor.

use vstd::prelude::*;
use crate::graph::traits::OptimizationLevel;

pub use crate::executor::optimization::OptimizationStats;

verus! {

/// Configuration for optimization behavior, by optimization level.
#[derive(Debug, Clone)]
pub struct OptimizationConfig {
    /// Maximum number of optimization passes to run.
    pub max_passes: u32,
    /// Optimization level to apply.
    pub level: OptimizationLevel,
    /// Whether to cache topological order between passes.
    pub cache_topology: bool,
    /// Minimum graph size to enable certain optimizations.
    pub min_graph_size_for_advanced_opts: usize,
}

impl Default for OptimizationConfig {
    /// Ten passes at the basic level, caching the topological order, with
    /// advanced optimizations from a hundred nodes on.
    fn default() -> (c: Self)
        ensures
            c.max_passes == 10,
            c.level == OptimizationLevel::Basic,
            c.cache_topology,
            c.min_graph_size_for_advanced_opts == 100,
    {
        OptimizationConfig {
            max_passes: 10,
            level: OptimizationLevel::Basic,
            cache_topology: true,
            min_graph_size_for_advanced_opts: 100,
        }
    }
}

} // verus!
