//! Configuration of the optimizer, and a builder for it.

use vstd::prelude::*;

verus! {

/// Configuration for optimization behavior.
#[derive(Debug, Clone, Copy)]
pub struct OptimizationConfig {
    /// Maximum number of optimization passes to run.
    pub max_passes: u32,
    /// Whether to cache topological order between passes.
    pub cache_topology: bool,
    /// Minimum graph size to enable certain optimizations.
    pub min_graph_size_for_advanced_opts: usize,
}

impl Default for OptimizationConfig {
    /// Ten passes at most, topology caching on, advanced optimizations from
    /// a hundred nodes.
    fn default() -> (c: Self)
        ensures
            c.max_passes == 10,
            c.cache_topology,
            c.min_graph_size_for_advanced_opts == 100,
    {
        OptimizationConfig { max_passes: 10, cache_topology: true, min_graph_size_for_advanced_opts: 100 }
    }
}

/// Builder pattern for optimization configuration.
#[derive(Debug, Clone)]
pub struct OptimizationConfigBuilder {
    max_passes: u32,
    cache_topology: bool,
    min_graph_size_for_advanced_opts: usize,
    enabled_passes: Vec<String>,
    disabled_passes: Vec<String>,
}

/// The texts of a list of string slices.
pub open spec fn texts(passes: Seq<&str>) -> Seq<Seq<char>> {
    passes.map_values(|p: &str| p@)
}

impl OptimizationConfigBuilder {
    /// The maximum number of passes set so far.
    pub closed spec fn max_passes_value(&self) -> u32 {
        self.max_passes
    }

    /// Whether topology caching is set.
    pub closed spec fn cache_topology_value(&self) -> bool {
        self.cache_topology
    }

    /// The minimum graph size for advanced optimizations set so far.
    pub closed spec fn min_graph_size_value(&self) -> usize {
        self.min_graph_size_for_advanced_opts
    }

    /// The names of the passes enabled so far, in order.
    pub closed spec fn enabled(&self) -> Seq<Seq<char>> {
        self.enabled_passes@.map_values(|s: String| s@)
    }

    /// The names of the passes disabled so far, in order.
    pub closed spec fn disabled(&self) -> Seq<Seq<char>> {
        self.disabled_passes@.map_values(|s: String| s@)
    }

    /// A builder holding the default configuration and no pass names.
    pub fn new() -> (b: Self)
        ensures
            b.max_passes_value() == 10,
            b.cache_topology_value(),
            b.min_graph_size_value() == 100,
            b.enabled() == Seq::<Seq<char>>::empty(),
            b.disabled() == Seq::<Seq<char>>::empty(),
    {
        let b = OptimizationConfigBuilder {
            max_passes: 10,
            cache_topology: true,
            min_graph_size_for_advanced_opts: 100,
            enabled_passes: Vec::new(),
            disabled_passes: Vec::new(),
        };
        assert(b.enabled() =~= Seq::<Seq<char>>::empty());
        assert(b.disabled() =~= Seq::<Seq<char>>::empty());
        b
    }

    /// Set maximum number of optimization passes.
    pub fn max_passes(self, max_passes: u32) -> (b: Self)
        ensures
            b.max_passes_value() == max_passes,
            b.cache_topology_value() == self.cache_topology_value(),
            b.min_graph_size_value() == self.min_graph_size_value(),
            b.enabled() == self.enabled(),
            b.disabled() == self.disabled(),
    {
        let mut b = self;
        b.max_passes = max_passes;
        b
    }

    /// Enable or disable topology caching.
    pub fn cache_topology(self, cache: bool) -> (b: Self)
        ensures
            b.max_passes_value() == self.max_passes_value(),
            b.cache_topology_value() == cache,
            b.min_graph_size_value() == self.min_graph_size_value(),
            b.enabled() == self.enabled(),
            b.disabled() == self.disabled(),
    {
        let mut b = self;
        b.cache_topology = cache;
        b
    }

    /// Set minimum graph size for advanced optimizations.
    pub fn min_graph_size_for_advanced_opts(self, size: usize) -> (b: Self)
        ensures
            b.max_passes_value() == self.max_passes_value(),
            b.cache_topology_value() == self.cache_topology_value(),
            b.min_graph_size_value() == size,
            b.enabled() == self.enabled(),
            b.disabled() == self.disabled(),
    {
        let mut b = self;
        b.min_graph_size_for_advanced_opts = size;
        b
    }

    /// Enable specific optimization passes: their names are added after
    /// those enabled before.
    pub fn enable_passes(self, passes: &[&str]) -> (b: Self)
        ensures
            b.max_passes_value() == self.max_passes_value(),
            b.cache_topology_value() == self.cache_topology_value(),
            b.min_graph_size_value() == self.min_graph_size_value(),
            b.enabled() == self.enabled() + texts(passes@),
            b.disabled() == self.disabled(),
    {
        let mut b = self;
        append_names(&mut b.enabled_passes, passes);
        b
    }

    /// Disable specific optimization passes: their names are added after
    /// those disabled before.
    pub fn disable_passes(self, passes: &[&str]) -> (b: Self)
        ensures
            b.max_passes_value() == self.max_passes_value(),
            b.cache_topology_value() == self.cache_topology_value(),
            b.min_graph_size_value() == self.min_graph_size_value(),
            b.enabled() == self.enabled(),
            b.disabled() == self.disabled() + texts(passes@),
    {
        let mut b = self;
        append_names(&mut b.disabled_passes, passes);
        b
    }

    /// Build the final configuration.
    pub fn build(self) -> (c: OptimizationConfig)
        ensures
            c.max_passes == self.max_passes_value(),
            c.cache_topology == self.cache_topology_value(),
            c.min_graph_size_for_advanced_opts == self.min_graph_size_value(),
    {
        OptimizationConfig {
            max_passes: self.max_passes,
            cache_topology: self.cache_topology,
            min_graph_size_for_advanced_opts: self.min_graph_size_for_advanced_opts,
        }
    }
}

/// Appends an owned copy of each name to `names`.
fn append_names(names: &mut Vec<String>, passes: &[&str])
    ensures
        final(names)@.map_values(|s: String| s@) == old(names)@.map_values(|s: String| s@) + texts(passes@),
{
    let ghost start = old(names)@.map_values(|s: String| s@);
    let mut i: usize = 0;
    while i < passes.len()
        invariant
            i <= passes@.len(),
            names@.map_values(|s: String| s@) == start + texts(passes@.take(i as int)),
        decreases passes@.len() - i,
    {
        let name = passes[i].to_string();
        let ghost before = names@;
        names.push(name);
        proof {
            assert(names@ == before.push(name));
            assert(names@.map_values(|s: String| s@) =~= before.map_values(|s: String| s@).push(name@));
            assert(texts(passes@.take(i + 1)) =~= texts(passes@.take(i as int)).push(passes@[i as int]@));
        }
        i = i + 1;
    }
    assert(passes@.take(passes@.len() as int) =~= passes@);
}

impl Default for OptimizationConfigBuilder {
    fn default() -> (b: Self)
        ensures
            b.max_passes_value() == 10,
            b.cache_topology_value(),
            b.min_graph_size_value() == 100,
            b.enabled() == Seq::<Seq<char>>::empty(),
            b.disabled() == Seq::<Seq<char>>::empty(),
    {
        Self::new()
    }
}

} // verus!
