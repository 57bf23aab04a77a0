//! The `EliminateNopConcat` pass.

use vstd::prelude::*;
use crate::graph::objects::NodeId;
use crate::graph::store::Graph;
use crate::passes::eliminations::bypass::{
    BypassTarget, bypass_all, bypass_node, bypassable, bypassed, find_nodes_of_kind,
    none_eliminable, shrunk_by_bypassing, swept_by_bypassing,
};
use crate::passes::error::PassError;
use crate::passes::traits::OptimizationPass;
use crate::utils::arena::count_occupied;

verus! {

/// Eliminates Concat nodes that concatenate a single input: such a node
/// passes its input through unchanged.
#[derive(Debug, Clone)]
pub struct EliminateNopConcat;

impl EliminateNopConcat {
    pub fn new() -> (p: Self) {
        EliminateNopConcat
    }

    /// All Concat nodes in the graph, in increasing index order.
    pub fn find_concat_nodes(&self, graph: &Graph) -> (ids: Vec<NodeId>)
        requires
            graph.wf(),
        ensures
            forall|a: int, b: int| 0 <= a < b < ids@.len() ==> ids@[a].0 < ids@[b].0,
            forall|k: int|
                0 <= k < ids@.len() ==> graph.node_map().contains_key(#[trigger] ids@[k].0)
                    && graph.node_map()[ids@[k].0].op_kind is Concat,
            forall|x: u32|
                graph.node_map().contains_key(x) && graph.node_map()[x].op_kind is Concat
                    ==> ids@.contains(NodeId(x)),
    {
        find_nodes_of_kind(graph, &BypassTarget::Concat)
    }

    /// Whether the node can be safely eliminated: it is in the graph, has
    /// exactly one input and one output, and both values exist.
    pub fn can_eliminate_concat(&self, graph: &Graph, node_id: NodeId) -> (b: bool)
        requires
            graph.wf(),
        ensures
            b == bypassable(*graph, node_id.0),
    {
        let node = match graph.node(node_id) {
            Some(node) => node,
            None => {
                return false;
            },
        };
        if node.inputs.len() != 1 || node.outputs.len() != 1 {
            return false;
        }
        if graph.tensor(node.inputs[0]).is_none() {
            return false;
        }
        if graph.tensor(node.outputs[0]).is_none() {
            return false;
        }
        true
    }

    /// Eliminates a single node when it can be eliminated, and says whether
    /// it did.
    pub fn eliminate_concat_node(&self, graph: &mut Graph, node_id: NodeId) -> (r: Result<bool, PassError>)
        requires
            old(graph).wf(),
        ensures
            final(graph).wf(),
            r == Ok::<bool, PassError>(bypassable(*old(graph), node_id.0)),
            bypassable(*old(graph), node_id.0) ==> bypassed(*old(graph), *final(graph), node_id.0),
            !bypassable(*old(graph), node_id.0) ==> *final(graph) == *old(graph),
    {
        if !self.can_eliminate_concat(graph, node_id) {
            return Ok(false);
        }
        let done = bypass_node(graph, node_id);
        Ok(done)
    }
}

impl Default for EliminateNopConcat {
    fn default() -> (p: Self) {
        Self::new()
    }
}

impl OptimizationPass for EliminateNopConcat {
    fn pass_name(&self) -> (name: String)
        ensures
            name@ == "EliminateNopConcat"@,
    {
        "EliminateNopConcat".to_string()
    }

    /// Eliminates, in increasing index order, every Concat node that can be
    /// eliminated when its turn comes, and returns how many it eliminated.
    /// Afterwards no Concat node can be eliminated.
    fn execute(&self, graph: &mut Graph) -> (r: Result<u32, PassError>)
        ensures
            r is Ok,
            shrunk_by_bypassing(BypassTarget::Concat, *old(graph), *final(graph)),
            count_occupied(final(graph).node_arena().slots()) + r->Ok_0 == count_occupied(
                old(graph).node_arena().slots(),
            ),
            none_eliminable(BypassTarget::Concat, *final(graph)),
            swept_by_bypassing(BypassTarget::Concat, *old(graph), *final(graph)),
            none_eliminable(BypassTarget::Concat, *old(graph)) ==> r == Ok::<u32, PassError>(0u32)
                && *final(graph) == *old(graph),
    {
        Ok(bypass_all(graph, &BypassTarget::Concat))
    }
}

} // verus!
