//! Topological order of a graph's nodes along its data dependencies.

use vstd::prelude::*;
use crate::graph::dependency::{
    dep_edges, dep_node_count, dependency_graph_add_edge, dependency_graph_add_node,
    dependency_graph_new, dependency_graph_toposort, index_order,
};
use crate::graph::error::GraphError;
use crate::graph::objects::{NodeId, ValueId};
use crate::graph::store::Graph;

verus! {

/// Value `v` is registered as produced by node `a`.
pub open spec fn produced_by(g: Graph, v: ValueId, a: u32) -> bool {
    &&& g.producers().contains_key(v.0)
    &&& g.producers()[v.0] == NodeId(a)
}

/// Node `b` is live and reads a value registered as produced by node `a`.
pub open spec fn feeds(g: Graph, a: u32, b: u32) -> bool {
    &&& g.node_map().contains_key(b)
    &&& exists|i: int| 0 <= i < g.node_map()[b].inputs@.len() && #[trigger] produced_by(g, g.node_map()[b].inputs@[i], a)
}

/// `order` lists every live node exactly once, and a node that feeds
/// another comes before it.
pub open spec fn is_topological_order(g: Graph, order: Seq<NodeId>) -> bool {
    &&& forall|k: int| 0 <= k < order.len() ==> g.node_map().contains_key(#[trigger] order[k].0)
    &&& forall|k: int, l: int| 0 <= k < l < order.len() ==> order[k] != order[l]
    &&& forall|x: u32| g.node_map().contains_key(x) ==> #[trigger] order.contains(NodeId(x))
    &&& forall|k: int, l: int|
        0 <= k < order.len() && 0 <= l < order.len() && #[trigger] feeds(g, order[k].0, order[l].0) ==> k < l
}

/// Strictly increasing node identifiers.
pub open spec fn strictly_increasing(ids: Seq<NodeId>) -> bool {
    forall|a: int, b: int| 0 <= a < b < ids.len() ==> ids[a].0 < ids[b].0
}

/// Some edge into position `b` comes from the position of node `p`.
pub open spec fn edge_recorded(edges: Seq<(usize, usize)>, ids: Seq<NodeId>, p: NodeId, b: int) -> bool {
    exists|e: int| 0 <= e < edges.len() && edges[e].1 == b && ids[edges[e].0 as int] == p
}

/// Every edge joins two positions whose nodes feed one another.
pub open spec fn edges_sound(g: Graph, ids: Seq<NodeId>, edges: Seq<(usize, usize)>) -> bool {
    forall|e: int|
        0 <= e < edges.len() ==> {
            &&& ((#[trigger] edges[e]).0 as int) < ids.len()
            &&& (edges[e].1 as int) < ids.len()
            &&& feeds(g, ids[edges[e].0 as int].0, ids[edges[e].1 as int].0)
        }
}

/// The position of `x` among strictly increasing identifiers.
fn position_of(ids: &Vec<NodeId>, x: NodeId) -> (r: usize)
    requires
        strictly_increasing(ids@),
        ids@.contains(x),
    ensures
        r < ids@.len(),
        ids@[r as int] == x,
{
    let mut lo: usize = 0;
    let mut hi: usize = ids.len();
    while hi - lo > 1
        invariant
            strictly_increasing(ids@),
            lo < hi <= ids@.len(),
            exists|k: int| lo <= k < hi && ids@[k] == x,
        decreases hi - lo,
    {
        let mid = lo + (hi - lo) / 2;
        if ids[mid].0 <= x.0 {
            lo = mid;
        } else {
            hi = mid;
        }
    }
    lo
}

/// Pushing an edge keeps every recorded edge recorded.
proof fn lemma_recorded_push(edges: Seq<(usize, usize)>, ids: Seq<NodeId>, p: NodeId, b: int, x: (usize, usize))
    requires
        edge_recorded(edges, ids, p, b),
    ensures
        edge_recorded(edges.push(x), ids, p, b),
{
    let e = choose|e: int| 0 <= e < edges.len() && edges[e].1 == b && ids[edges[e].0 as int] == p;
    assert(edges.push(x)[e] == edges[e]);
}

/// A topological order of the graph, read as positions among the live
/// identifiers, is a topological order of the dependency edges.
proof fn lemma_positions_of_order(g: Graph, ids: Seq<NodeId>, edges: Seq<(usize, usize)>, o: Seq<NodeId>) -> (p: Seq<usize>)
    requires
        g.wf(),
        strictly_increasing(ids),
        forall|k: int| 0 <= k < ids.len() ==> g.node_map().contains_key(#[trigger] ids[k].0),
        forall|x: u32| g.node_map().contains_key(x) ==> ids.contains(NodeId(x)),
        ids.len() <= usize::MAX,
        edges_sound(g, ids, edges),
        is_topological_order(g, o),
    ensures
        index_order(ids.len(), edges, p),
{
    let p = Seq::new(o.len(), |k: int| (choose|j: int| 0 <= j < ids.len() && ids[j] == o[k]) as usize);
    assert forall|k: int| 0 <= k < o.len() implies 0 <= #[trigger] p[k] < ids.len() && ids[p[k] as int] == o[k] by {
        assert(g.node_map().contains_key(o[k].0));
        assert(ids.contains(NodeId(o[k].0)));
    }
    assert forall|k: int, l: int| 0 <= k < l < p.len() implies p[k] != p[l] by {
        assert(ids[p[k] as int] == o[k]);
        assert(ids[p[l] as int] == o[l]);
    }
    assert forall|x: usize| (x as int) < ids.len() implies #[trigger] p.contains(x) by {
        assert(g.node_map().contains_key(ids[x as int].0));
        assert(o.contains(NodeId(ids[x as int].0)));
        let k = choose|k: int| 0 <= k < o.len() && o[k] == NodeId(ids[x as int].0);
        assert(ids[p[k] as int] == ids[x as int]);
        if p[k] != x {
            if (p[k] as int) < (x as int) {
                assert(ids[p[k] as int].0 < ids[x as int].0);
            } else {
                assert(ids[x as int].0 < ids[p[k] as int].0);
            }
        }
        assert(p[k] == x);
    }
    assert forall|e: int, k: int, l: int|
        0 <= e < edges.len() && 0 <= k < p.len() && 0 <= l < p.len()
            && #[trigger] p[k] == (#[trigger] edges[e]).0 && #[trigger] p[l] == edges[e].1 implies k < l by {
        assert(feeds(g, ids[edges[e].0 as int].0, ids[edges[e].1 as int].0));
        assert(ids[p[k] as int] == o[k]);
        assert(ids[p[l] as int] == o[l]);
        assert(feeds(g, o[k].0, o[l].0));
    }
    p
}

/// A topological order of the live nodes along their data dependencies:
/// node `a` comes before node `b` when `b` reads a value that `a` is
/// registered as producing. Fails exactly when no such order exists, that
/// is when the dependencies form a cycle.
pub fn topological_order(graph: &Graph) -> (r: Result<Vec<NodeId>, GraphError>)
    requires
        graph.wf(),
    ensures
        r is Ok <==> exists|o: Seq<NodeId>| is_topological_order(*graph, o),
        r matches Ok(o) ==> is_topological_order(*graph, o@),
        r matches Err(e) ==> e == GraphError::CyclicGraph,
{
    let ids = graph.node_ids();
    let ghost n = ids@.len();
    let mut dg = dependency_graph_new();
    let mut j: usize = 0;
    while j < ids.len()
        invariant
            j <= ids@.len(),
            dep_node_count(dg) == j,
            dep_edges(dg) == Seq::<(usize, usize)>::empty(),
        decreases ids@.len() - j,
    {
        dependency_graph_add_node(&mut dg);
        j = j + 1;
    }
    let mut b: usize = 0;
    while b < ids.len()
        invariant
            graph.wf(),
            strictly_increasing(ids@),
            forall|k: int| 0 <= k < ids@.len() ==> graph.node_map().contains_key(#[trigger] ids@[k].0),
            forall|x: u32| graph.node_map().contains_key(x) ==> ids@.contains(NodeId(x)),
            b <= ids@.len(),
            dep_node_count(dg) == ids@.len(),
            edges_sound(*graph, ids@, dep_edges(dg)),
            forall|bb: int, i: int|
                0 <= bb < b && 0 <= i < graph.node_map()[ids@[bb].0].inputs@.len()
                    && graph.producers().contains_key(#[trigger] graph.node_map()[ids@[bb].0].inputs@[i].0)
                    ==> edge_recorded(dep_edges(dg), ids@, graph.producers()[graph.node_map()[ids@[bb].0].inputs@[i].0], bb),
        decreases ids@.len() - b,
    {
        let node = graph.node(ids[b]).unwrap();
        let mut i: usize = 0;
        while i < node.inputs.len()
            invariant
                graph.wf(),
                strictly_increasing(ids@),
                forall|k: int| 0 <= k < ids@.len() ==> graph.node_map().contains_key(#[trigger] ids@[k].0),
                forall|x: u32| graph.node_map().contains_key(x) ==> ids@.contains(NodeId(x)),
                b < ids@.len(),
                *node == graph.node_map()[ids@[b as int].0],
                i <= node.inputs@.len(),
                dep_node_count(dg) == ids@.len(),
                edges_sound(*graph, ids@, dep_edges(dg)),
                forall|bb: int, ii: int|
                    ((0 <= bb < b && 0 <= ii < graph.node_map()[ids@[bb].0].inputs@.len()) || (bb == b && 0 <= ii < i))
                        && graph.producers().contains_key(#[trigger] graph.node_map()[ids@[bb].0].inputs@[ii].0)
                        ==> edge_recorded(dep_edges(dg), ids@, graph.producers()[graph.node_map()[ids@[bb].0].inputs@[ii].0], bb),
            decreases node.inputs@.len() - i,
        {
            let v = node.inputs[i];
            match graph.producer(v) {
                Some(p) => {
                    proof {
                        assert(graph.node_map().contains_key(p.0));
                        assert(ids@.contains(NodeId(p.0)));
                    }
                    let a = position_of(&ids, p);
                    let ghost before = dep_edges(dg);
                    dependency_graph_add_edge(&mut dg, a, b);
                    proof {
                        let edges = dep_edges(dg);
                        assert(produced_by(*graph, graph.node_map()[ids@[b as int].0].inputs@[i as int], p.0));
                        assert(feeds(*graph, ids@[a as int].0, ids@[b as int].0));
                        assert forall|e: int| 0 <= e < edges.len() implies {
                            &&& ((#[trigger] edges[e]).0 as int) < ids@.len()
                            &&& (edges[e].1 as int) < ids@.len()
                            &&& feeds(*graph, ids@[edges[e].0 as int].0, ids@[edges[e].1 as int].0)
                        } by {
                            if e < before.len() {
                                assert(edges[e] == before[e]);
                            }
                        }
                        assert forall|bb: int, ii: int|
                            ((0 <= bb < b && 0 <= ii < graph.node_map()[ids@[bb].0].inputs@.len()) || (bb == b && 0 <= ii < i + 1))
                                && graph.producers().contains_key(#[trigger] graph.node_map()[ids@[bb].0].inputs@[ii].0)
                                implies edge_recorded(edges, ids@, graph.producers()[graph.node_map()[ids@[bb].0].inputs@[ii].0], bb) by {
                            if bb == b && ii == i {
                                assert(edges[edges.len() - 1] == (a, b));
                            } else {
                                lemma_recorded_push(before, ids@, graph.producers()[graph.node_map()[ids@[bb].0].inputs@[ii].0], bb, (a, b));
                            }
                        }
                    }
                },
                None => {},
            }
            i = i + 1;
        }
        b = b + 1;
    }
    match dependency_graph_toposort(&dg) {
        Ok(order) => {
            let mut out: Vec<NodeId> = Vec::new();
            let mut k: usize = 0;
            while k < order.len()
                invariant
                    index_order(n, dep_edges(dg), order@),
                    n == ids@.len(),
                    k <= order@.len(),
                    out@.len() == k,
                    forall|q: int| 0 <= q < k ==> out@[q] == ids@[#[trigger] order@[q] as int],
                decreases order@.len() - k,
            {
                let idx = order[k];
                out.push(ids[idx]);
                k = k + 1;
            }
            proof {
                let edges = dep_edges(dg);
                assert forall|q: int| 0 <= q < out@.len() implies graph.node_map().contains_key(#[trigger] out@[q].0) by {
                    assert(out@[q] == ids@[order@[q] as int]);
                }
                assert forall|q: int, s: int| 0 <= q < s < out@.len() implies out@[q] != out@[s] by {
                    assert(out@[q] == ids@[order@[q] as int]);
                    assert(out@[s] == ids@[order@[s] as int]);
                    assert(order@[q] != order@[s]);
                    if (order@[q] as int) < (order@[s] as int) {
                        assert(ids@[order@[q] as int].0 < ids@[order@[s] as int].0);
                    } else {
                        assert(ids@[order@[s] as int].0 < ids@[order@[q] as int].0);
                    }
                }
                assert forall|x: u32| graph.node_map().contains_key(x) implies #[trigger] out@.contains(NodeId(x)) by {
                    assert(ids@.contains(NodeId(x)));
                    let jx = choose|jx: int| 0 <= jx < ids@.len() && ids@[jx] == NodeId(x);
                    assert(order@.contains(jx as usize));
                    let q = choose|q: int| 0 <= q < order@.len() && order@[q] == jx as usize;
                    assert(out@[q] == NodeId(x));
                }
                assert forall|q: int, s: int|
                    0 <= q < out@.len() && 0 <= s < out@.len() && #[trigger] feeds(*graph, out@[q].0, out@[s].0) implies q < s by {
                    assert(out@[q] == ids@[order@[q] as int]);
                    assert(out@[s] == ids@[order@[s] as int]);
                    let node_s = graph.node_map()[out@[s].0];
                    let i = choose|i: int| 0 <= i < node_s.inputs@.len() && #[trigger] produced_by(*graph, node_s.inputs@[i], out@[q].0);
                    let bb = order@[s] as int;
                    assert(graph.producers().contains_key(graph.node_map()[ids@[bb].0].inputs@[i].0));
                    assert(edge_recorded(edges, ids@, graph.producers()[graph.node_map()[ids@[bb].0].inputs@[i].0], bb));
                    let e = choose|e: int| 0 <= e < edges.len() && edges[e].1 == bb && ids@[edges[e].0 as int] == out@[q];
                    assert(edges[e].0 == order@[q]) by {
                        assert(ids@[edges[e].0 as int] == ids@[order@[q] as int]);
                        if (edges[e].0 as int) < (order@[q] as int) {
                            assert(ids@[edges[e].0 as int].0 < ids@[order@[q] as int].0);
                        } else if (order@[q] as int) < (edges[e].0 as int) {
                            assert(ids@[order@[q] as int].0 < ids@[edges[e].0 as int].0);
                        }
                    }
                    assert(order@[q] == edges[e].0 && order@[s] == edges[e].1);
                }
                assert(is_topological_order(*graph, out@));
            }
            Ok(out)
        },
        Err(_) => {
            proof {
                if exists|o: Seq<NodeId>| is_topological_order(*graph, o) {
                    let o = choose|o: Seq<NodeId>| is_topological_order(*graph, o);
                    let p = lemma_positions_of_order(*graph, ids@, dep_edges(dg), o);
                    assert(index_order(dep_node_count(dg), dep_edges(dg), p));
                }
            }
            Err(GraphError::CyclicGraph)
        },
    }
}

} // verus!
