//! petgraph's directed graphs, used to sort nodes by their dependencies.

use vstd::prelude::*;
use petgraph::graph::Graph as PetGraph;

verus! {

#[verifier::external_type_specification]
#[verifier::external_body]
#[verifier::reject_recursive_types(N)]
#[verifier::reject_recursive_types(E)]
#[verifier::reject_recursive_types(Ty)]
#[verifier::reject_recursive_types(Ix)]
pub struct ExPetGraph<N, E, Ty, Ix>(PetGraph<N, E, Ty, Ix>);

#[verifier::external_type_specification]
#[verifier::external_body]
pub struct ExDirected(petgraph::Directed);

/// The number of nodes of a petgraph directed graph indexed by `usize`.
pub uninterp spec fn dep_node_count(g: PetGraph<(), (), petgraph::Directed, usize>) -> nat;

/// The edges of a petgraph directed graph indexed by `usize`, as
/// (source, target) node indices, in the order they were added.
pub uninterp spec fn dep_edges(g: PetGraph<(), (), petgraph::Directed, usize>) -> Seq<(usize, usize)>;

/// `order` lists each of the nodes `0..n` exactly once, and every edge goes
/// from a node listed earlier to one listed later.
pub open spec fn index_order(n: nat, edges: Seq<(usize, usize)>, order: Seq<usize>) -> bool {
    &&& forall|k: int| 0 <= k < order.len() ==> (#[trigger] order[k] as int) < n
    &&& forall|k: int, l: int| 0 <= k < l < order.len() ==> order[k] != order[l]
    &&& forall|x: usize| (x as int) < n ==> #[trigger] order.contains(x)
    &&& forall|e: int, k: int, l: int|
        0 <= e < edges.len() && 0 <= k < order.len() && 0 <= l < order.len()
            && #[trigger] order[k] == (#[trigger] edges[e]).0 && #[trigger] order[l] == edges[e].1 ==> k < l
}

/// An empty directed graph.
///
/// Trusted: calls `petgraph::graph::Graph::with_capacity(0, 0)`, which
/// builds a graph with no nodes and no edges.
#[verifier::external_body]
pub(crate) fn dependency_graph_new() -> (g: PetGraph<(), (), petgraph::Directed, usize>)
    ensures
        dep_node_count(g) == 0,
        dep_edges(g) == Seq::<(usize, usize)>::empty(),
{
    PetGraph::with_capacity(0, 0)
}

/// Adds a node and returns its index.
///
/// Trusted: calls `petgraph::graph::Graph::add_node`, which appends a node
/// whose index is the former node count, leaves the edges alone, and with
/// `usize` indices never runs out of them.
#[verifier::external_body]
pub(crate) fn dependency_graph_add_node(g: &mut PetGraph<(), (), petgraph::Directed, usize>) -> (i: usize)
    ensures
        i == dep_node_count(*old(g)),
        dep_node_count(*final(g)) == dep_node_count(*old(g)) + 1,
        dep_edges(*final(g)) == dep_edges(*old(g)),
{
    g.add_node(()).index()
}

/// Adds an edge from node `a` to node `b`.
///
/// Trusted: calls `petgraph::graph::Graph::add_edge`, which appends the
/// edge and leaves the nodes alone; it panics on a node that does not
/// exist, hence the `requires`.
#[verifier::external_body]
pub(crate) fn dependency_graph_add_edge(g: &mut PetGraph<(), (), petgraph::Directed, usize>, a: usize, b: usize)
    requires
        (a as int) < dep_node_count(*old(g)),
        (b as int) < dep_node_count(*old(g)),
    ensures
        dep_node_count(*final(g)) == dep_node_count(*old(g)),
        dep_edges(*final(g)) == dep_edges(*old(g)).push((a, b)),
{
    g.add_edge(petgraph::graph::NodeIndex::new(a), petgraph::graph::NodeIndex::new(b), ());
}

/// Sorts the nodes of a directed graph topologically.
///
/// Trusted: calls `petgraph::algo::toposort`, documented to return every
/// node in an order where each node comes before its successors when the
/// graph is acyclic, and otherwise a node on a cycle (a self loop counts as
/// a cycle). Which of the valid orders it returns is left unsaid here.
#[verifier::external_body]
pub(crate) fn dependency_graph_toposort(g: &PetGraph<(), (), petgraph::Directed, usize>) -> (r: Result<Vec<usize>, usize>)
    ensures
        r matches Ok(order) ==> index_order(dep_node_count(*g), dep_edges(*g), order@),
        r matches Err(c) ==> (c as int) < dep_node_count(*g)
            && !exists|o: Seq<usize>| index_order(dep_node_count(*g), dep_edges(*g), o),
{
    match petgraph::algo::toposort(g, None) {
        Ok(order) => Ok(order.iter().map(|n| n.index()).collect()),
        Err(cycle) => Err(cycle.node_id().index()),
    }
}

} // verus!
