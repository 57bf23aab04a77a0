//! Bypassing a node with one input and one output: its consumers read the
//! input directly, and the node and its output value go away.

use vstd::prelude::*;
use crate::graph::objects::NodeId;
use crate::graph::op_kind::OpKind;
use crate::graph::store::{Graph, inputs_replaced, replace_id};
use crate::utils::arena::{count_occupied, lemma_count_occupied_update};

verus! {

/// Node `k` is live, has exactly one input and one output, and both values
/// are present in the graph.
pub open spec fn bypassable(g: Graph, k: u32) -> bool {
    &&& g.node_map().contains_key(k)
    &&& g.node_map()[k].inputs@.len() == 1
    &&& g.node_map()[k].outputs@.len() == 1
    &&& g.value_map().contains_key(g.node_map()[k].inputs@[0].0)
    &&& g.value_map().contains_key(g.node_map()[k].outputs@[0].0)
}

/// `new` is `old` with node `id` bypassed: the node and its output value are
/// gone, and every use of the output now reads the input.
pub open spec fn bypassed(old: Graph, new: Graph, id: u32) -> bool {
    let n = old.node_map()[id];
    let input = n.inputs@[0];
    let output = n.outputs@[0];
    &&& new.node_map().dom() == old.node_map().dom().remove(id)
    &&& forall|k: u32|
        #[trigger] new.node_map().contains_key(k) ==> inputs_replaced(
            old.node_map()[k],
            new.node_map()[k],
            output,
            input,
        )
    &&& new.value_map() == old.value_map().remove(output.0)
    &&& new.input_values() == old.input_values()
    &&& new.output_values() == replace_id(old.output_values(), output, input)
    &&& new.node_arena().slots().len() == old.node_arena().slots().len()
    &&& count_occupied(new.node_arena().slots()) + 1 == count_occupied(old.node_arena().slots())
}

/// A surviving node keeps everything but possibly its inputs.
pub open spec fn same_node_shape(old: Graph, new: Graph, k: u32) -> bool {
    &&& new.node_map()[k].name == old.node_map()[k].name
    &&& new.node_map()[k].op_kind == old.node_map()[k].op_kind
    &&& new.node_map()[k].outputs == old.node_map()[k].outputs
    &&& new.node_map()[k].attributes == old.node_map()[k].attributes
    &&& new.node_map()[k].inputs@.len() == old.node_map()[k].inputs@.len()
}

/// Bypassing one node leaves every other node that could not be bypassed
/// unable to be bypassed.
pub proof fn lemma_bypass_keeps_blocked(old: Graph, new: Graph, id: u32, x: u32)
    requires
        bypassable(old, id),
        bypassed(old, new, id),
        x != id,
        !bypassable(old, x),
    ensures
        !bypassable(new, x),
{
    if new.node_map().contains_key(x) {
        let n = old.node_map()[id];
        assert(inputs_replaced(old.node_map()[x], new.node_map()[x], n.outputs@[0], n.inputs@[0]));
        let ox = old.node_map()[x];
        if ox.inputs@.len() == 1 && ox.outputs@.len() == 1 {
            assert(new.node_map()[x].inputs@[0] == (if ox.inputs@[0] == n.outputs@[0] {
                n.inputs@[0]
            } else {
                ox.inputs@[0]
            }));
        }
    }
}

/// A node with exactly one input and one output, both live values, can be
/// bypassed; bypassing it removes it and its output value, and every use of
/// the output (by a node, at any input position, or among the graph
/// outputs) reads the input instead, every other use staying as it was.
pub proof fn lemma_bypass_rewires_uses(old: Graph, new: Graph, id: u32, x: u32, j: int, m: int)
    requires
        old.node_map().contains_key(id),
        old.node_map()[id].inputs@.len() == 1,
        old.node_map()[id].outputs@.len() == 1,
        old.value_map().contains_key(old.node_map()[id].inputs@[0].0),
        old.value_map().contains_key(old.node_map()[id].outputs@[0].0),
        bypassed(old, new, id),
        new.node_map().contains_key(x),
        0 <= j < old.node_map()[x].inputs@.len(),
        0 <= m < old.output_values().len(),
    ensures
        bypassable(old, id),
        !new.node_map().contains_key(id),
        !new.value_map().contains_key(old.node_map()[id].outputs@[0].0),
        new.node_map()[x].inputs@.len() == old.node_map()[x].inputs@.len(),
        new.node_map()[x].inputs@[j] == (if old.node_map()[x].inputs@[j] == old.node_map()[id].outputs@[0] {
            old.node_map()[id].inputs@[0]
        } else {
            old.node_map()[x].inputs@[j]
        }),
        new.output_values()[m] == (if old.output_values()[m] == old.node_map()[id].outputs@[0] {
            old.node_map()[id].inputs@[0]
        } else {
            old.output_values()[m]
        }),
{
    assert(inputs_replaced(old.node_map()[x], new.node_map()[x], old.node_map()[id].outputs@[0], old.node_map()[id].inputs@[0]));
}

/// Bypasses node `id` when it is bypassable, and says whether it did.
pub fn bypass_node(graph: &mut Graph, id: NodeId) -> (done: bool)
    requires
        old(graph).wf(),
    ensures
        final(graph).wf(),
        done == bypassable(*old(graph), id.0),
        done ==> bypassed(*old(graph), *final(graph), id.0),
        !done ==> *final(graph) == *old(graph),
{
    let (input, output) = match graph.node(id) {
        Some(node) => {
            if node.inputs.len() != 1 || node.outputs.len() != 1 {
                return false;
            }
            (node.inputs[0], node.outputs[0])
        },
        None => {
            return false;
        },
    };
    if graph.tensor(input).is_none() || graph.tensor(output).is_none() {
        return false;
    }
    let ghost g0 = *graph;
    graph.replace_value(output, input);
    let ghost g1 = *graph;
    graph.remove_node(id);
    let ghost g2 = *graph;
    graph.remove_value(output);
    proof {
        if input != output {
            assert(g1.node_map().contains_key(id.0));
            lemma_count_occupied_update(g1.node_arena().slots(), id.0 as int, None);
        } else {
            assert(g1.node_map().contains_key(id.0));
            lemma_count_occupied_update(g1.node_arena().slots(), id.0 as int, None);
        }
        assert(graph.node_map().dom() =~= g0.node_map().dom().remove(id.0));
        assert forall|k: u32| #[trigger] graph.node_map().contains_key(k) implies inputs_replaced(
            g0.node_map()[k],
            graph.node_map()[k],
            output,
            input,
        ) by {
            if input == output {
                assert(replace_id(g0.node_map()[k].inputs@, output, input) =~= g0.node_map()[k].inputs@);
            }
        }
        if input == output {
            assert(replace_id(g0.output_values(), output, input) =~= g0.output_values());
        }
    }
    true
}

/// The kinds of node that the bypassing passes remove.
pub enum BypassTarget {
    Identity,
    Concat,
    Transpose,
}

/// Whether kind `k` is the kind targeted by `t`.
pub open spec fn targets(t: BypassTarget, k: OpKind) -> bool {
    match t {
        BypassTarget::Identity => k is Identity,
        BypassTarget::Concat => k is Concat,
        BypassTarget::Transpose => k is Transpose,
    }
}

/// Each sweep targets exactly the nodes of its own operator kind.
pub proof fn lemma_targets_are_own_kind(k: OpKind)
    ensures
        targets(BypassTarget::Identity, k) <==> k == OpKind::Identity,
        targets(BypassTarget::Concat, k) <==> k == OpKind::Concat,
        targets(BypassTarget::Transpose, k) <==> k == OpKind::Transpose,
{
}

/// The live nodes of the targeted kind, in increasing index order.
pub fn find_nodes_of_kind(graph: &Graph, t: &BypassTarget) -> (ids: Vec<NodeId>)
    requires
        graph.wf(),
    ensures
        forall|a: int, b: int| 0 <= a < b < ids@.len() ==> ids@[a].0 < ids@[b].0,
        forall|k: int|
            0 <= k < ids@.len() ==> graph.node_map().contains_key(#[trigger] ids@[k].0) && targets(
                *t,
                graph.node_map()[ids@[k].0].op_kind,
            ),
        forall|x: u32|
            graph.node_map().contains_key(x) && targets(*t, graph.node_map()[x].op_kind)
                ==> ids@.contains(NodeId(x)),
        ids@.len() <= graph.node_arena().slots().len(),
{
    let all = graph.node_ids();
    let mut ids: Vec<NodeId> = Vec::new();
    let mut i: usize = 0;
    while i < all.len()
        invariant
            graph.wf(),
            i <= all@.len(),
            forall|a: int, b: int| 0 <= a < b < all@.len() ==> all@[a].0 < all@[b].0,
            forall|k: int| 0 <= k < all@.len() ==> graph.node_map().contains_key(#[trigger] all@[k].0),
            forall|x: u32| graph.node_map().contains_key(x) ==> all@.contains(NodeId(x)),
            all@.len() <= graph.node_arena().slots().len(),
            ids@.len() <= i,
            forall|a: int, b: int| 0 <= a < b < ids@.len() ==> ids@[a].0 < ids@[b].0,
            forall|k: int| 0 <= k < ids@.len() ==> exists|j: int| 0 <= j < i && all@[j] == #[trigger] ids@[k],
            forall|k: int|
                0 <= k < ids@.len() ==> graph.node_map().contains_key(#[trigger] ids@[k].0) && targets(
                    *t,
                    graph.node_map()[ids@[k].0].op_kind,
                ),
            forall|j: int|
                0 <= j < i && targets(*t, graph.node_map()[#[trigger] all@[j].0].op_kind) ==> ids@.contains(all@[j]),
        decreases all@.len() - i,
    {
        let id = all[i];
        let node = graph.node(id).unwrap();
        let hit = match t {
            BypassTarget::Identity => matches!(node.op_kind, OpKind::Identity),
            BypassTarget::Concat => matches!(node.op_kind, OpKind::Concat),
            BypassTarget::Transpose => matches!(node.op_kind, OpKind::Transpose),
        };
        let ghost before = ids@;
        if hit {
            ids.push(id);
            proof {
                assert forall|a: int, b: int| 0 <= a < b < ids@.len() implies ids@[a].0 < ids@[b].0 by {
                    if b == ids@.len() - 1 && a < before.len() {
                        let j = choose|j: int| 0 <= j < i && all@[j] == before[a];
                        assert(all@[j].0 < all@[i as int].0);
                    }
                }
                assert(ids@[ids@.len() - 1] == all@[i as int]);
            }
        }
        proof {
            assert forall|k: int| 0 <= k < ids@.len() implies exists|j: int| 0 <= j < i + 1 && all@[j] == #[trigger] ids@[k] by {
                if k < before.len() {
                    let j = choose|j: int| 0 <= j < i && all@[j] == before[k];
                    assert(all@[j] == ids@[k]);
                } else {
                    assert(all@[i as int] == ids@[k]);
                }
            }
            assert forall|j: int|
                0 <= j < i + 1 && targets(*t, graph.node_map()[#[trigger] all@[j].0].op_kind) implies ids@.contains(all@[j]) by {
                if j < i {
                    let k = choose|k: int| 0 <= k < before.len() && before[k] == all@[j];
                    assert(ids@[k] == all@[j]);
                } else {
                    assert(ids@[ids@.len() - 1] == all@[j]);
                }
            }
        }
        i = i + 1;
    }
    proof {
        assert forall|x: u32|
            graph.node_map().contains_key(x) && targets(*t, graph.node_map()[x].op_kind) implies ids@.contains(NodeId(x)) by {
            let j = choose|j: int| 0 <= j < all@.len() && all@[j] == NodeId(x);
            assert(targets(*t, graph.node_map()[all@[j].0].op_kind));
        }
    }
    ids
}

/// Node `k` is a live node of the targeted kind that can be bypassed.
pub open spec fn eliminable(t: BypassTarget, g: Graph, k: u32) -> bool {
    &&& bypassable(g, k)
    &&& targets(t, g.node_map()[k].op_kind)
}

/// No node of the targeted kind can be bypassed.
pub open spec fn none_eliminable(t: BypassTarget, g: Graph) -> bool {
    forall|k: u32| !eliminable(t, g, k)
}

/// `new` came from `old` by removing nodes of the targeted kind and values,
/// and rewiring inputs; nothing else about the surviving nodes changed.
pub open spec fn shrunk_by_bypassing(t: BypassTarget, old: Graph, new: Graph) -> bool {
    &&& new.node_map().dom().subset_of(old.node_map().dom())
    &&& forall|k: u32|
        old.node_map().contains_key(k) && !new.node_map().contains_key(k) ==> targets(
            t,
            #[trigger] old.node_map()[k].op_kind,
        )
    &&& forall|k: u32| #[trigger] new.node_map().contains_key(k) ==> same_node_shape(old, new, k)
    &&& forall|v: u32|
        #[trigger] new.value_map().contains_key(v) ==> old.value_map().contains_key(v)
            && new.value_map()[v] == old.value_map()[v]
    &&& new.input_values() == old.input_values()
    &&& new.node_arena().slots().len() == old.node_arena().slots().len()
}

/// `new` comes from `old` by removing nodes, only of kinds that
/// `removable` allows: no node or value is added, a surviving node keeps
/// its operator, outputs, attributes and number of inputs, a surviving
/// value is unchanged, and the graph inputs stay.
pub open spec fn shrunk_to(old: Graph, new: Graph, removable: spec_fn(OpKind) -> bool) -> bool {
    &&& new.node_map().dom().subset_of(old.node_map().dom())
    &&& forall|k: u32|
        old.node_map().contains_key(k) && !new.node_map().contains_key(k) ==> removable(
            #[trigger] old.node_map()[k].op_kind,
        )
    &&& forall|k: u32| #[trigger] new.node_map().contains_key(k) ==> same_node_shape(old, new, k)
    &&& forall|v: u32|
        #[trigger] new.value_map().contains_key(v) ==> old.value_map().contains_key(v)
            && new.value_map()[v] == old.value_map()[v]
    &&& new.input_values() == old.input_values()
    &&& new.node_arena().slots().len() == old.node_arena().slots().len()
}

/// A graph is shrunk to itself.
pub proof fn lemma_shrunk_to_refl(g: Graph, removable: spec_fn(OpKind) -> bool)
    ensures
        shrunk_to(g, g, removable),
{
}

/// Bypassing nodes of a targeted kind shrinks the graph, removing only
/// nodes of that kind.
pub proof fn lemma_bypassing_shrinks_to(t: BypassTarget, old: Graph, new: Graph, removable: spec_fn(OpKind) -> bool)
    requires
        shrunk_by_bypassing(t, old, new),
        forall|k: OpKind| targets(t, k) ==> #[trigger] removable(k),
    ensures
        shrunk_to(old, new, removable),
{
}

/// Shrinking allowing fewer kinds also shrinks allowing more.
pub proof fn lemma_shrunk_to_weaken(old: Graph, new: Graph, r1: spec_fn(OpKind) -> bool, r2: spec_fn(OpKind) -> bool)
    requires
        shrunk_to(old, new, r1),
        forall|k: OpKind| #[trigger] r1(k) ==> r2(k),
    ensures
        shrunk_to(old, new, r2),
{
    assert forall|k: u32| old.node_map().contains_key(k) && !new.node_map().contains_key(k) implies r2(
        #[trigger] old.node_map()[k].op_kind,
    ) by {
        assert(r1(old.node_map()[k].op_kind));
    }
}

/// Shrinking twice is shrinking.
pub proof fn lemma_shrunk_to_trans(a: Graph, b: Graph, c: Graph, removable: spec_fn(OpKind) -> bool)
    requires
        shrunk_to(a, b, removable),
        shrunk_to(b, c, removable),
    ensures
        shrunk_to(a, c, removable),
{
    assert forall|k: u32| #[trigger] c.node_map().contains_key(k) implies same_node_shape(a, c, k) by {
        assert(b.node_map().contains_key(k));
        assert(same_node_shape(a, b, k));
        assert(same_node_shape(b, c, k));
    }
    assert forall|k: u32| a.node_map().contains_key(k) && !c.node_map().contains_key(k) implies removable(
        #[trigger] a.node_map()[k].op_kind,
    ) by {
        if b.node_map().contains_key(k) {
            assert(same_node_shape(a, b, k));
            assert(removable(b.node_map()[k].op_kind));
        }
    }
    assert forall|v: u32| #[trigger] c.value_map().contains_key(v) implies a.value_map().contains_key(v)
        && c.value_map()[v] == a.value_map()[v] by {
        assert(b.value_map().contains_key(v));
    }
}

/// One step of a bypassing sweep, at node `k`: `next` is `g` with `k`
/// bypassed when `k` can be bypassed, and `g` itself otherwise.
pub open spec fn bypass_step(g: Graph, k: u32, next: Graph) -> bool {
    if bypassable(g, k) {
        bypassed(g, next, k)
    } else {
        next == g
    }
}

/// `gs` are the graphs that a bypassing sweep over `ids` passes through,
/// one step per node.
pub open spec fn bypass_trace(ids: Seq<NodeId>, gs: Seq<Graph>) -> bool {
    &&& gs.len() == ids.len() + 1
    &&& forall|i: int| 0 <= i < ids.len() ==> bypass_step(gs[i], (#[trigger] ids[i]).0, gs[i + 1])
}

/// `ids` are the nodes of `g` of the targeted kind, in increasing index
/// order.
pub open spec fn kind_in_order(t: BypassTarget, g: Graph, ids: Seq<NodeId>) -> bool {
    &&& forall|a: int, b: int| 0 <= a < b < ids.len() ==> ids[a].0 < ids[b].0
    &&& forall|k: int|
        0 <= k < ids.len() ==> g.node_map().contains_key(#[trigger] ids[k].0)
            && targets(t, g.node_map()[ids[k].0].op_kind)
    &&& forall|x: u32| g.node_map().contains_key(x) && targets(t, g.node_map()[x].op_kind) ==> ids.contains(NodeId(x))
}

/// `new` is what sweeping the nodes of the targeted kind of `old` in
/// increasing index order gives, each bypassed when the sweep reaches it if
/// it can then be bypassed.
pub open spec fn swept_by_bypassing(t: BypassTarget, old: Graph, new: Graph) -> bool {
    exists|ids: Seq<NodeId>, gs: Seq<Graph>|
        #![trigger kind_in_order(t, old, ids), bypass_trace(ids, gs)]
        kind_in_order(t, old, ids) && bypass_trace(ids, gs) && gs[0] == old && gs.last() == new
}

/// A sweep over a graph in which no node of the targeted kind can be
/// bypassed changes nothing.
proof fn lemma_sweep_of_blocked_graph(t: BypassTarget, g: Graph, ids: Seq<NodeId>, gs: Seq<Graph>, n: int)
    requires
        none_eliminable(t, g),
        kind_in_order(t, g, ids),
        bypass_trace(ids, gs),
        gs[0] == g,
        0 <= n <= ids.len(),
    ensures
        gs[n] == g,
    decreases n,
{
    if n > 0 {
        lemma_sweep_of_blocked_graph(t, g, ids, gs, n - 1);
        assert(bypass_step(gs[n - 1], ids[n - 1].0, gs[n]));
        assert(!eliminable(t, g, ids[n - 1].0));
    }
}

/// Sweeping twice is sweeping once: after a sweep of the targeted kind
/// leaves no node of that kind that can be bypassed, a second sweep leaves
/// the graph unchanged.
pub proof fn lemma_sweep_idempotent(t: BypassTarget, g0: Graph, g1: Graph, g2: Graph)
    requires
        swept_by_bypassing(t, g0, g1),
        none_eliminable(t, g1),
        swept_by_bypassing(t, g1, g2),
    ensures
        g2 == g1,
{
    let (ids, gs) = choose|ids: Seq<NodeId>, gs: Seq<Graph>|
        #![trigger kind_in_order(t, g1, ids), bypass_trace(ids, gs)]
        kind_in_order(t, g1, ids) && bypass_trace(ids, gs) && gs[0] == g1 && gs.last() == g2;
    lemma_sweep_of_blocked_graph(t, g1, ids, gs, ids.len() as int);
}

/// Bypasses, in increasing index order, every node of the targeted kind
/// that can be bypassed when its turn comes, and returns how many it
/// bypassed.
pub fn bypass_all(graph: &mut Graph, t: &BypassTarget) -> (count: u32)
    requires
        old(graph).wf(),
        old(graph).node_arena().slots().len() <= u32::MAX,
    ensures
        final(graph).wf(),
        shrunk_by_bypassing(*t, *old(graph), *final(graph)),
        count_occupied(final(graph).node_arena().slots()) + count == count_occupied(
            old(graph).node_arena().slots(),
        ),
        none_eliminable(*t, *final(graph)),
        none_eliminable(*t, *old(graph)) ==> count == 0 && *final(graph) == *old(graph),
        swept_by_bypassing(*t, *old(graph), *final(graph)),
{
    let ids = find_nodes_of_kind(graph, t);
    let ghost g0 = *graph;
    let ghost mut gs: Seq<Graph> = seq![*graph];
    let mut total: u32 = 0;
    let mut i: usize = 0;
    while i < ids.len()
        invariant
            graph.wf(),
            i <= ids@.len(),
            ids@.len() <= g0.node_arena().slots().len() <= u32::MAX,
            forall|a: int, b: int| 0 <= a < b < ids@.len() ==> ids@[a].0 < ids@[b].0,
            forall|k: int|
                0 <= k < ids@.len() ==> g0.node_map().contains_key(#[trigger] ids@[k].0) && targets(
                    *t,
                    g0.node_map()[ids@[k].0].op_kind,
                ),
            forall|x: u32|
                g0.node_map().contains_key(x) && targets(*t, g0.node_map()[x].op_kind)
                    ==> ids@.contains(NodeId(x)),
            shrunk_by_bypassing(*t, g0, *graph),
            total <= i,
            count_occupied(graph.node_arena().slots()) + total == count_occupied(g0.node_arena().slots()),
            forall|j: int| 0 <= j < i ==> !eliminable(*t, *graph, #[trigger] ids@[j].0),
            none_eliminable(*t, g0) ==> total == 0 && *graph == g0,
            bypass_trace(ids@.take(i as int), gs),
            gs[0] == g0,
            gs.last() == *graph,
        decreases ids@.len() - i,
    {
        let id = ids[i];
        let ghost before = *graph;
        let done = bypass_node(graph, id);
        if done {
            total = total + 1;
        }
        proof {
            if done {
                lemma_bypassed_shrinks(*t, g0, before, *graph, id.0);
                assert forall|j: int| 0 <= j < i + 1 implies !eliminable(*t, *graph, #[trigger] ids@[j].0) by {
                    if j < i {
                        assert(ids@[j].0 != id.0);
                        if bypassable(before, ids@[j].0) {
                            assert(!targets(*t, before.node_map()[ids@[j].0].op_kind));
                            assert(!graph.node_map().contains_key(ids@[j].0) || graph.node_map()[ids@[j].0].op_kind == before.node_map()[ids@[j].0].op_kind);
                        } else {
                            lemma_bypass_keeps_blocked(before, *graph, id.0, ids@[j].0);
                        }
                    }
                }
                if none_eliminable(*t, g0) {
                    assert(eliminable(*t, g0, id.0));
                }
            } else {
                assert forall|j: int| 0 <= j < i + 1 implies !eliminable(*t, *graph, #[trigger] ids@[j].0) by {
                }
            }
            let prev = gs;
            gs = gs.push(*graph);
            assert forall|j: int| 0 <= j < ids@.take(i + 1).len() implies bypass_step(gs[j], (#[trigger] ids@.take(i + 1)[j]).0, gs[j + 1]) by {
                if j < i {
                    assert(ids@.take(i + 1)[j] == ids@.take(i as int)[j]);
                    assert(bypass_step(prev[j], ids@.take(i as int)[j].0, prev[j + 1]));
                } else {
                    assert(ids@.take(i + 1)[j] == id);
                }
            }
        }
        i = i + 1;
    }
    proof {
        assert(ids@.take(ids@.len() as int) =~= ids@);
        assert(kind_in_order(*t, g0, ids@));
        assert(bypass_trace(ids@, gs));
    }
    proof {
        assert forall|k: u32| !eliminable(*t, *graph, k) by {
            if eliminable(*t, *graph, k) {
                assert(g0.node_map().contains_key(k));
                assert(same_node_shape(g0, *graph, k));
                assert(ids@.contains(NodeId(k)));
                let j = choose|j: int| 0 <= j < ids@.len() && ids@[j] == NodeId(k);
                assert(!eliminable(*t, *graph, ids@[j].0));
            }
        }
    }
    total
}

/// One more bypass keeps the graph shrunk by bypassing relative to where it
/// started.
proof fn lemma_bypassed_shrinks(t: BypassTarget, g0: Graph, before: Graph, after: Graph, id: u32)
    requires
        shrunk_by_bypassing(t, g0, before),
        bypassable(before, id),
        targets(t, before.node_map()[id].op_kind),
        bypassed(before, after, id),
    ensures
        shrunk_by_bypassing(t, g0, after),
{
    let n = before.node_map()[id];
    assert forall|k: u32| #[trigger] after.node_map().contains_key(k) implies same_node_shape(g0, after, k) by {
        assert(before.node_map().contains_key(k));
        assert(same_node_shape(g0, before, k));
        assert(inputs_replaced(before.node_map()[k], after.node_map()[k], n.outputs@[0], n.inputs@[0]));
    }
    assert forall|k: u32|
        g0.node_map().contains_key(k) && !after.node_map().contains_key(k) implies targets(
        t,
        #[trigger] g0.node_map()[k].op_kind,
    ) by {
        if before.node_map().contains_key(k) {
            assert(k == id);
            assert(same_node_shape(g0, before, k));
        }
    }
}

} // verus!
