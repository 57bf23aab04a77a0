//! The `EliminateNopTranspose` pass.

use vstd::prelude::*;
use crate::graph::objects::{Node, NodeAttrValue, NodeId};
use crate::graph::store::{Graph, inputs_replaced};
use crate::passes::eliminations::bypass::{
    BypassTarget, bypass_node, bypassable, bypassed, find_nodes_of_kind, same_node_shape,
    shrunk_by_bypassing, targets,
};
use crate::passes::error::PassError;
use crate::passes::traits::OptimizationPass;
use crate::utils::arena::count_occupied;

verus! {

/// `perm` is `[0, 1, ..., n-1]` for the rank `n` of a known shape.
pub open spec fn identity_perm(perm: Seq<i64>, shape: Option<Vec<i64>>) -> bool {
    &&& shape is Some
    &&& perm.len() == shape->Some_0@.len()
    &&& forall|i: int| 0 <= i < perm.len() ==> perm[i] == i
}

/// The node's `perm` attribute leaves the layout alone: it is missing
/// (identity by default) or is an identity list for the shape.
pub open spec fn identity_permutation(node: Node, shape: Option<Vec<i64>>) -> bool {
    match node.attributes@.get("perm"@) {
        Some(NodeAttrValue::Ints(p)) => identity_perm(p@, shape),
        None => true,
        _ => false,
    }
}

/// Node `k` is a transpose that leaves its input unchanged: one input and
/// one output, the input present, and either the input's known rank is at
/// most 1 or the permutation is the identity.
pub open spec fn nop_transpose(g: Graph, k: u32) -> bool {
    &&& g.node_map().contains_key(k)
    &&& g.node_map()[k].inputs@.len() == 1
    &&& g.node_map()[k].outputs@.len() == 1
    &&& g.value_map().contains_key(g.node_map()[k].inputs@[0].0)
    &&& {
        let t = g.value_map()[g.node_map()[k].inputs@[0].0];
        ||| (t.shape is Some && t.shape->Some_0@.len() <= 1)
        ||| identity_permutation(g.node_map()[k], t.shape)
    }
}

/// The dimensions of a tensor of dimensions `dims` transposed by `perm`:
/// dimension `i` of the result is dimension `perm[i]` of the input.
pub open spec fn transposed_dims(dims: Seq<int>, perm: Seq<i64>) -> Seq<int> {
    Seq::new(perm.len(), |i: int| dims[perm[i] as int])
}

/// A permutation counts as the identity exactly when every axis stays
/// where it is (`perm[i] == i` at every position) and it has one entry per
/// axis of a known shape; transposing by it then leaves any dimensions as
/// they are.
pub proof fn lemma_identity_perm_is_exact(perm: Seq<i64>, shape: Option<Vec<i64>>)
    ensures
        identity_perm(perm, shape) <==> {
            &&& shape is Some
            &&& perm.len() == shape->Some_0@.len()
            &&& forall|i: int| 0 <= i < perm.len() ==> #[trigger] perm[i] as int == i
        },
        identity_perm(perm, shape) ==> forall|dims: Seq<int>|
            dims.len() == perm.len() ==> #[trigger] transposed_dims(dims, perm) == dims,
{
    if identity_perm(perm, shape) {
        assert forall|dims: Seq<int>| dims.len() == perm.len() implies #[trigger] transposed_dims(dims, perm) == dims by {
            assert(transposed_dims(dims, perm) =~= dims);
        }
    }
}

/// A permutation of in-range axes that moves some axis changes the
/// dimensions it transposes: it is never the identity.
pub proof fn lemma_moving_perm_changes_dims(perm: Seq<i64>, shape: Option<Vec<i64>>, i: int)
    requires
        0 <= i < perm.len(),
        perm[i] != i,
        forall|j: int| 0 <= j < perm.len() ==> 0 <= #[trigger] perm[j] < perm.len(),
    ensures
        transposed_dims(Seq::new(perm.len(), |j: int| j), perm) != Seq::new(perm.len(), |j: int| j),
        !identity_perm(perm, shape),
{
    let dims = Seq::new(perm.len(), |j: int| j);
    assert(transposed_dims(dims, perm)[i] == perm[i] as int);
    assert(dims[i] == i);
}

/// A Transpose whose `perm` moves some axis, on an input of known rank at
/// least 2, is no no-op: the sweep never removes it.
pub proof fn lemma_moving_perm_is_kept(g: Graph, k: u32, p: Seq<i64>, i: int)
    requires
        g.node_map().contains_key(k),
        g.node_map()[k].attributes@.get("perm"@) matches Some(NodeAttrValue::Ints(v)) && v@ == p,
        g.node_map()[k].inputs@.len() >= 1,
        g.value_map().contains_key(g.node_map()[k].inputs@[0].0),
        g.value_map()[g.node_map()[k].inputs@[0].0].shape matches Some(s) && s@.len() >= 2,
        0 <= i < p.len(),
        p[i] != i,
    ensures
        !nop_transpose(g, k),
        !sweep_takes(g, k),
{
}

/// A Transpose with one input and one output whose input has a known rank
/// of at most 1 is a no-op, whatever its `perm`; one whose `perm` is
/// missing is a no-op too.
pub proof fn lemma_low_rank_or_missing_perm_is_nop(g: Graph, k: u32)
    requires
        g.node_map().contains_key(k),
        g.node_map()[k].inputs@.len() == 1,
        g.node_map()[k].outputs@.len() == 1,
        g.value_map().contains_key(g.node_map()[k].inputs@[0].0),
        (g.value_map()[g.node_map()[k].inputs@[0].0].shape matches Some(s) && s@.len() <= 1)
            || g.node_map()[k].attributes@.get("perm"@) is None,
    ensures
        nop_transpose(g, k),
{
}

/// The sweep removes node `k` of `g` when it reaches it: the node can be
/// bypassed and is a no-op transpose.
pub open spec fn sweep_takes(g: Graph, k: u32) -> bool {
    bypassable(g, k) && nop_transpose(g, k)
}

/// One step of the sweep, at node `k`: `next` is `g` with `k` bypassed when
/// the sweep takes it, and `g` itself otherwise.
pub open spec fn sweep_step(g: Graph, k: u32, next: Graph) -> bool {
    if sweep_takes(g, k) {
        bypassed(g, next, k)
    } else {
        next == g
    }
}

/// `gs` are the graphs that a sweep over `ids` passes through, one step per
/// node.
pub open spec fn sweep_trace(ids: Seq<NodeId>, gs: Seq<Graph>) -> bool {
    &&& gs.len() == ids.len() + 1
    &&& forall|i: int| 0 <= i < ids.len() ==> sweep_step(gs[i], (#[trigger] ids[i]).0, gs[i + 1])
}

/// `ids` are the Transpose nodes of `g`, in increasing index order.
pub open spec fn transposes_in_order(g: Graph, ids: Seq<NodeId>) -> bool {
    &&& forall|a: int, b: int| 0 <= a < b < ids.len() ==> ids[a].0 < ids[b].0
    &&& forall|k: int|
        0 <= k < ids.len() ==> g.node_map().contains_key(#[trigger] ids[k].0)
            && g.node_map()[ids[k].0].op_kind is Transpose
    &&& forall|x: u32|
        g.node_map().contains_key(x) && g.node_map()[x].op_kind is Transpose ==> ids.contains(NodeId(x))
}

/// `new` is what sweeping the Transpose nodes of `old` in increasing index
/// order gives, each removed when the sweep reaches it if it can then be
/// bypassed and is a no-op.
pub open spec fn transposes_swept(old: Graph, new: Graph) -> bool {
    exists|ids: Seq<NodeId>, gs: Seq<Graph>|
        #![trigger transposes_in_order(old, ids), sweep_trace(ids, gs)]
        transposes_in_order(old, ids) && sweep_trace(ids, gs) && gs[0] == old && gs.last() == new
}

/// Eliminates no-operation Transpose nodes.
///
/// A Transpose node is a no-op if the `perm` attribute is the identity
/// permutation `[0, 1, ..., n-1]`, if the `perm` attribute is missing (it
/// defaults to identity), or if the input tensor has rank at most 1. This
/// pass removes such nodes and reconnects the graph directly.
#[derive(Debug, Clone)]
pub struct EliminateNopTranspose;

impl EliminateNopTranspose {
    pub fn new() -> (p: Self) {
        EliminateNopTranspose
    }

    /// All Transpose nodes in the graph, in increasing index order.
    pub fn find_transpose_nodes(&self, graph: &Graph) -> (ids: Vec<NodeId>)
        requires
            graph.wf(),
        ensures
            forall|a: int, b: int| 0 <= a < b < ids@.len() ==> ids@[a].0 < ids@[b].0,
            forall|k: int|
                0 <= k < ids@.len() ==> graph.node_map().contains_key(#[trigger] ids@[k].0)
                    && graph.node_map()[ids@[k].0].op_kind is Transpose,
            forall|x: u32|
                graph.node_map().contains_key(x) && graph.node_map()[x].op_kind is Transpose
                    ==> ids@.contains(NodeId(x)),
            ids@.len() <= graph.node_arena().slots().len(),
    {
        find_nodes_of_kind(graph, &BypassTarget::Transpose)
    }

    /// Whether the transpose node leaves its input unchanged.
    pub fn is_nop_transpose(&self, graph: &Graph, node_id: NodeId) -> (b: bool)
        requires
            graph.wf(),
        ensures
            b == nop_transpose(*graph, node_id.0),
    {
        let node = match graph.node(node_id) {
            Some(node) => node,
            None => {
                return false;
            },
        };
        if node.inputs.len() != 1 || node.outputs.len() != 1 {
            return false;
        }
        let input_tensor = match graph.tensor(node.inputs[0]) {
            Some(tensor) => tensor,
            None => {
                return false;
            },
        };
        if let Some(shape) = &input_tensor.shape {
            if shape.len() <= 1 {
                return true;
            }
        }
        self.is_identity_permutation(node, input_tensor.shape.as_ref())
    }

    /// Whether the node's `perm` attribute is missing or an identity
    /// permutation for `shape`.
    pub fn is_identity_permutation(&self, node: &Node, shape: Option<&Vec<i64>>) -> (b: bool)
        ensures
            b == identity_permutation(*node, match shape {
                Some(s) => Some(*s),
                None => None,
            }),
    {
        match node.attributes.get("perm") {
            Some(NodeAttrValue::Ints(perm_values)) => {
                self.is_identity_perm_array(perm_values.as_slice(), shape)
            },
            None => true,
            _ => false,
        }
    }

    /// Whether `perm` is `[0, 1, ..., n-1]` for the rank `n` of `shape`; an
    /// unknown shape gives `false`.
    pub fn is_identity_perm_array(&self, perm: &[i64], shape: Option<&Vec<i64>>) -> (b: bool)
        ensures
            b == identity_perm(perm@, match shape {
                Some(s) => Some(*s),
                None => None,
            }),
    {
        let rank = match shape {
            Some(s) => s.len(),
            None => {
                return false;
            },
        };
        if perm.len() != rank {
            return false;
        }
        let mut i: usize = 0;
        while i < perm.len()
            invariant
                i <= perm@.len(),
                forall|j: int| 0 <= j < i ==> perm@[j] == j,
            decreases perm@.len() - i,
        {
            let p = perm[i];
            if p < 0 || p as u64 != i as u64 {
                return false;
            }
            i = i + 1;
        }
        true
    }

    /// Whether the node has an input and an output, and its first input and
    /// first output exist in the graph.
    pub fn can_eliminate_transpose(&self, graph: &Graph, node_id: NodeId) -> (b: bool)
        requires
            graph.wf(),
        ensures
            b == (graph.node_map().contains_key(node_id.0)
                && graph.node_map()[node_id.0].inputs@.len() >= 1
                && graph.node_map()[node_id.0].outputs@.len() >= 1
                && graph.value_map().contains_key(graph.node_map()[node_id.0].inputs@[0].0)
                && graph.value_map().contains_key(graph.node_map()[node_id.0].outputs@[0].0)),
    {
        let node = match graph.node(node_id) {
            Some(node) => node,
            None => {
                return false;
            },
        };
        if node.inputs.len() == 0 || node.outputs.len() == 0 {
            return false;
        }
        if graph.tensor(node.inputs[0]).is_none() {
            return false;
        }
        if graph.tensor(node.outputs[0]).is_none() {
            return false;
        }
        true
    }

    /// Eliminates a single no-op transpose node, and says whether it did.
    pub fn eliminate_nop_transpose_node(&self, graph: &mut Graph, node_id: NodeId) -> (r: Result<
        bool,
        PassError,
    >)
        requires
            old(graph).wf(),
        ensures
            final(graph).wf(),
            r == Ok::<bool, PassError>(bypassable(*old(graph), node_id.0) && nop_transpose(
                *old(graph),
                node_id.0,
            )),
            r == Ok::<bool, PassError>(true) ==> bypassed(*old(graph), *final(graph), node_id.0),
            r == Ok::<bool, PassError>(false) ==> *final(graph) == *old(graph),
    {
        if !self.can_eliminate_transpose(graph, node_id) {
            return Ok(false);
        }
        if !self.is_nop_transpose(graph, node_id) {
            return Ok(false);
        }
        let done = bypass_node(graph, node_id);
        Ok(done)
    }
}

impl Default for EliminateNopTranspose {
    fn default() -> (p: Self) {
        Self::new()
    }
}

impl OptimizationPass for EliminateNopTranspose {
    fn pass_name(&self) -> (name: String)
        ensures
            name@ == "EliminateNopTranspose"@,
    {
        "EliminateNopTranspose".to_string()
    }

    /// Eliminates, in increasing index order, every Transpose node that is a
    /// no-op and can be bypassed when its turn comes, and returns how many it
    /// eliminated.
    fn execute(&self, graph: &mut Graph) -> (r: Result<u32, PassError>)
        ensures
            r is Ok,
            shrunk_by_bypassing(BypassTarget::Transpose, *old(graph), *final(graph)),
            count_occupied(final(graph).node_arena().slots()) + r->Ok_0 == count_occupied(
                old(graph).node_arena().slots(),
            ),
            transposes_swept(*old(graph), *final(graph)),
            (forall|k: u32| !(#[trigger] bypassable(*old(graph), k) && old(graph).node_map()[k].op_kind is Transpose && nop_transpose(*old(graph), k)))
                ==> r == Ok::<u32, PassError>(0u32) && *final(graph) == *old(graph),
    {
        let ids = self.find_transpose_nodes(graph);
        let ghost g0 = *graph;
        let ghost mut gs: Seq<Graph> = seq![*graph];
        let mut total: u32 = 0;
        let mut i: usize = 0;
        while i < ids.len()
            invariant
                graph.wf(),
                i <= ids@.len(),
                ids@.len() <= g0.node_arena().slots().len() <= u32::MAX,
                forall|k: int|
                    0 <= k < ids@.len() ==> g0.node_map().contains_key(#[trigger] ids@[k].0)
                        && g0.node_map()[ids@[k].0].op_kind is Transpose,
                shrunk_by_bypassing(BypassTarget::Transpose, g0, *graph),
                total <= i,
                count_occupied(graph.node_arena().slots()) + total == count_occupied(g0.node_arena().slots()),
                (forall|k: u32| !(#[trigger] bypassable(g0, k) && g0.node_map()[k].op_kind is Transpose && nop_transpose(g0, k)))
                    ==> total == 0 && *graph == g0,
                sweep_trace(ids@.take(i as int), gs),
                gs[0] == g0,
                gs.last() == *graph,
            decreases ids@.len() - i,
        {
            let id = ids[i];
            let ghost before = *graph;
            proof {
                if graph.node_map().contains_key(id.0) {
                    assert(same_node_shape(g0, *graph, id.0));
                }
            }
            let done = self.eliminate_nop_transpose_node(graph, id)?;
            if done {
                total = total + 1;
                proof {
                    let n = before.node_map()[id.0];
                    assert(same_node_shape(g0, before, id.0));
                    assert forall|k: u32| #[trigger] graph.node_map().contains_key(k) implies same_node_shape(g0, *graph, k) by {
                        assert(same_node_shape(g0, before, k));
                        assert(inputs_replaced(before.node_map()[k], graph.node_map()[k], n.outputs@[0], n.inputs@[0]));
                    }
                    assert forall|k: u32|
                        g0.node_map().contains_key(k) && !graph.node_map().contains_key(k) implies targets(
                        BypassTarget::Transpose,
                        #[trigger] g0.node_map()[k].op_kind,
                    ) by {
                        if before.node_map().contains_key(k) {
                            assert(k == id.0);
                        }
                    }
                    if forall|k: u32| !(#[trigger] bypassable(g0, k) && g0.node_map()[k].op_kind is Transpose && nop_transpose(g0, k)) {
                        assert(bypassable(g0, id.0) && g0.node_map()[id.0].op_kind is Transpose && nop_transpose(g0, id.0));
                    }
                }
            }
            proof {
                let prev = gs;
                gs = gs.push(*graph);
                assert forall|j: int| 0 <= j < ids@.take(i + 1).len() implies sweep_step(gs[j], (#[trigger] ids@.take(i + 1)[j]).0, gs[j + 1]) by {
                    if j < i {
                        assert(ids@.take(i + 1)[j] == ids@.take(i as int)[j]);
                        assert(sweep_step(prev[j], ids@.take(i as int)[j].0, prev[j + 1]));
                    } else {
                        assert(ids@.take(i + 1)[j] == id);
                    }
                }
            }
            i = i + 1;
        }
        proof {
            assert(ids@.take(ids@.len() as int) =~= ids@);
            assert(transposes_in_order(g0, ids@));
            assert(sweep_trace(ids@, gs));
        }
        Ok(total)
    }
}

} // verus!
