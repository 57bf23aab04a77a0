//! An executor that owns a graph and answers analyses about it, caching
//! its topological order.

use std::collections::HashSet;
use vstd::prelude::*;
use crate::graph::error::GraphError;
use crate::graph::objects::{Node, NodeId, Tensor, ValueId};
use crate::graph::op_kind::OpKind;
use crate::graph::store::{Graph, list_or_empty};
use crate::graph::topology::{is_topological_order, topological_order};
use crate::utils::arena::count_occupied;
use crate::utils::config::OptimizationConfig;

verus! {

/// Statistics collected during optimization.
#[derive(Debug, Clone, Copy)]
pub struct OptimizationStats {
    /// Number of nodes that had constants folded.
    pub constants_folded: u32,
    /// Number of dead nodes eliminated.
    pub dead_nodes_eliminated: u32,
    /// Number of identity nodes removed.
    pub identity_nodes_removed: u32,
    /// Number of dropout nodes removed.
    pub dropout_nodes_removed: u32,
    /// Number of operator fusions performed.
    pub operators_fused: u32,
    /// Number of optimization passes executed.
    pub passes_executed: u32,
}

impl OptimizationStats {
    /// Every counter is zero.
    pub open spec fn is_zero(&self) -> bool {
        &&& self.constants_folded == 0
        &&& self.dead_nodes_eliminated == 0
        &&& self.identity_nodes_removed == 0
        &&& self.dropout_nodes_removed == 0
        &&& self.operators_fused == 0
        &&& self.passes_executed == 0
    }
}

impl Default for OptimizationStats {
    fn default() -> (s: Self)
        ensures
            s.is_zero(),
    {
        OptimizationStats {
            constants_folded: 0,
            dead_nodes_eliminated: 0,
            identity_nodes_removed: 0,
            dropout_nodes_removed: 0,
            operators_fused: 0,
            passes_executed: 0,
        }
    }
}

/// Single-threaded optimization executor that owns the graph.
///
/// This executor takes ownership of the graph, applies optimization passes,
/// and returns the optimized graph.
pub struct OptimizationExecutor {
    /// The graph being optimized (owned).
    pub graph: Graph,
    /// Cached topological order for efficient traversal.
    pub cached_topo_order: Option<Vec<NodeId>>,
    /// Nodes that have been modified and may need topology recalculation.
    pub dirty_nodes: HashSet<NodeId>,
    /// Configuration for optimization behavior.
    pub config: OptimizationConfig,
    /// Statistics collected during optimization.
    pub stats: OptimizationStats,
}

impl OptimizationExecutor {
    /// An executor owning `graph`, with no cached order, no dirty nodes and
    /// zero statistics.
    pub fn new(graph: Graph, config: OptimizationConfig) -> (e: Self)
        ensures
            e.graph == graph,
            e.config == config,
            e.cached_topo_order is None,
            e.dirty_nodes@ == Set::<NodeId>::empty(),
            e.stats.is_zero(),
    {
        OptimizationExecutor {
            graph,
            config,
            stats: OptimizationStats::default(),
            cached_topo_order: None,
            dirty_nodes: HashSet::new(),
        }
    }

    /// Get node data by NodeId.
    pub fn node(&self, id: NodeId) -> (r: Option<&Node>)
        requires
            self.graph.wf(),
        ensures
            r is Some <==> self.graph.node_map().contains_key(id.0),
            r is Some ==> *r->Some_0 == self.graph.node_map()[id.0],
    {
        self.graph.node(id)
    }

    /// Get tensor data by ValueId.
    pub fn tensor(&self, id: ValueId) -> (r: Option<&Tensor>)
        requires
            self.graph.wf(),
        ensures
            r is Some <==> self.graph.value_map().contains_key(id.0),
            r is Some ==> *r->Some_0 == self.graph.value_map()[id.0],
    {
        self.graph.tensor(id)
    }

    /// Identifiers of the live nodes, in increasing index order.
    pub fn node_ids(&self) -> (ids: Vec<NodeId>)
        requires
            self.graph.wf(),
        ensures
            forall|a: int, b: int| 0 <= a < b < ids@.len() ==> ids@[a].0 < ids@[b].0,
            forall|k: int| 0 <= k < ids@.len() ==> self.graph.node_map().contains_key(#[trigger] ids@[k].0),
            forall|x: u32| self.graph.node_map().contains_key(x) ==> ids@.contains(NodeId(x)),
    {
        self.graph.node_ids()
    }

    /// The input values of a node; none for a node not in the graph.
    pub fn inputs(&self, node: NodeId) -> (r: &[ValueId])
        requires
            self.graph.wf(),
        ensures
            r@ == (if self.graph.node_map().contains_key(node.0) {
                self.graph.node_map()[node.0].inputs@
            } else {
                Seq::<ValueId>::empty()
            }),
    {
        self.graph.inputs(node)
    }

    /// The output values of a node; none for a node not in the graph.
    pub fn outputs(&self, node: NodeId) -> (r: &[ValueId])
        requires
            self.graph.wf(),
        ensures
            r@ == (if self.graph.node_map().contains_key(node.0) {
                self.graph.node_map()[node.0].outputs@
            } else {
                Seq::<ValueId>::empty()
            }),
    {
        self.graph.outputs(node)
    }

    /// The node registered as producing `value`.
    pub fn producer(&self, value: ValueId) -> (r: Option<NodeId>)
        ensures
            r == self.graph.producers().get(value.0),
    {
        self.graph.producer(value)
    }

    /// The nodes registered as consuming `value`, in registration order.
    pub fn consumers(&self, value: ValueId) -> (r: Vec<NodeId>)
        ensures
            r@ == list_or_empty(self.graph.consumer_lists(), value.0),
    {
        self.graph.consumers(value)
    }

    /// Graph-level input values.
    pub fn graph_inputs(&self) -> (r: &[ValueId])
        ensures
            r@ == self.graph.input_values(),
    {
        self.graph.graph_inputs()
    }

    /// Graph-level output values.
    pub fn graph_outputs(&self) -> (r: &[ValueId])
        ensures
            r@ == self.graph.output_values(),
    {
        self.graph.graph_outputs()
    }

    /// The cached order is used when it lists as many nodes as the graph
    /// holds.
    pub open spec fn cache_valid(&self) -> bool {
        self.cached_topo_order matches Some(o) && o@.len() == count_occupied(self.graph.node_arena().slots())
    }

    /// Get or compute the topological order of the nodes.
    ///
    /// A cached order is returned as it is while it lists as many nodes as
    /// the graph holds; otherwise a fresh order is computed and cached. It
    /// fails when the graph's dependencies form a cycle, leaving the cache
    /// as it was.
    pub fn get_topological_order(&mut self) -> (r: Result<&[NodeId], GraphError>)
        requires
            old(self).graph.wf(),
        ensures
            final(self).graph == old(self).graph,
            final(self).config == old(self).config,
            final(self).stats == old(self).stats,
            final(self).dirty_nodes@ == old(self).dirty_nodes@,
            old(self).cache_valid() ==> final(self).cached_topo_order == old(self).cached_topo_order
                && (r matches Ok(o) && o@ == old(self).cached_topo_order->Some_0@),
            !old(self).cache_valid() ==> {
                &&& r is Ok <==> exists|o: Seq<NodeId>| is_topological_order(old(self).graph, o)
                &&& r matches Ok(o) ==> is_topological_order(old(self).graph, o@)
                    && (final(self).cached_topo_order matches Some(c) && c@ == o@)
                &&& r matches Err(e) ==> e == GraphError::CyclicGraph
                    && final(self).cached_topo_order == old(self).cached_topo_order
            },
    {
        let current_node_count = self.graph.node_count();
        let cache_valid = match &self.cached_topo_order {
            Some(order) => order.len() == current_node_count,
            None => false,
        };
        if !cache_valid {
            match topological_order(&self.graph) {
                Ok(order) => {
                    self.cached_topo_order = Some(order);
                },
                Err(e) => {
                    return Err(e);
                },
            }
        }
        match &self.cached_topo_order {
            Some(order) => Ok(order.as_slice()),
            None => Err(GraphError::CyclicGraph),
        }
    }

    /// Mark the cached topology as invalid.
    pub fn invalidate_topology(&mut self)
        ensures
            final(self).cached_topo_order is None,
            final(self).graph == old(self).graph,
            final(self).config == old(self).config,
            final(self).stats == old(self).stats,
            final(self).dirty_nodes@ == old(self).dirty_nodes@,
    {
        self.cached_topo_order = None;
    }

    /// Whether a node can have its constants folded: every node is
    /// considered eligible.
    pub fn can_fold_constant(&self, node_id: NodeId) -> (b: bool)
        ensures
            b,
    {
        true
    }

    /// Whether a node is dead: no node is considered dead.
    pub fn is_dead_node(&self, node_id: NodeId) -> (b: bool)
        ensures
            !b,
    {
        false
    }

    /// Whether an operation type supports constant folding: every
    /// operation is considered to.
    pub fn supports_constant_folding(op_kind: &OpKind) -> (b: bool)
        ensures
            b,
    {
        true
    }

    /// Validates the graph's consistency; every graph passes.
    pub fn validate_graph(&self) -> (r: Result<(), GraphError>)
        ensures
            r is Ok,
    {
        Ok(())
    }
}

} // verus!
